//! Writing template files to their destination.

use vstd::prelude::*;
use crate::shared_models::{DestinationFile, SourceFile, StringTokenReplacer, ZatResultX};

verus! {

/// Writes out a file with the tokens in its name replaced. The tokens within
/// its content are replaced only when it is a template file (one ending in
/// `.tmpl`), which is written out without that extension.
/// For example, with the value `your_cool_project` for the variable `project`:
/// `$project$.py` becomes `your_cool_project.py`; `$project$.py.tmpl` becomes
/// `your_cool_project.py` with its tokens replaced; `README.md.tmpl` becomes
/// `README.md` with its tokens replaced; `README.md` is copied as it is.
pub trait FileWriter {
    /// Whether `r` is an outcome of writing `source_file` to
    /// `destination_file` with `token_replacer`. A writer that does not
    /// describe itself promises nothing of its outcomes.
    open spec fn write_outcome<R: StringTokenReplacer>(
        &self,
        source_file: SourceFile,
        destination_file: DestinationFile,
        token_replacer: R,
        r: ZatResultX<()>,
    ) -> bool {
        true
    }

    fn write_source_to_destination<R: StringTokenReplacer>(
        &self,
        source_file: &SourceFile,
        destination_file: &DestinationFile,
        token_replacer: &R,
    ) -> (r: ZatResultX<()>)
        ensures
            self.write_outcome(*source_file, *destination_file, *token_replacer, r),
    ;
}

} // verus!
