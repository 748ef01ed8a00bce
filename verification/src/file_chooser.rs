//! Which entries of a template directory are processed.

use vstd::prelude::*;
use crate::file_traverser::TemplateFile;

verus! {

/// Decides which entries are processed; those not included are ignored.
/// Example filters: `.variable`, `*/input/*`, `*.json`.
pub trait FileChooser {
    /// Whether this chooser answers `included` for the entry `file_type`. A
    /// chooser that does not describe itself promises nothing of its answers.
    open spec fn inclusion(&self, file_type: TemplateFile, included: bool) -> bool {
        true
    }

    fn is_included(&self, file_type: TemplateFile) -> (r: bool)
        ensures
            self.inclusion(file_type, r),
    ;

    /// Whether the entry is ignored: exactly when it is not included.
    fn is_ignored(&self, file_type: TemplateFile) -> (r: bool)
        ensures
            self.inclusion(file_type, !r),
    {
        !self.is_included(file_type)
    }
}

} // verus!
