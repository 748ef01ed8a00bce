//! What the listed entries of the template files directory become: the
//! directories and files to write under the target directory.

use vstd::prelude::*;
use crate::config::IgnoredFiles;
use crate::config::path::{path_join, relative_part, relative_path};
use crate::enriched_template_file_processor::EnrichedTemplateFile;
use crate::error::ZatError;
use crate::error::ZatResult;
use crate::error::zat_error::{could_not_determine_base_path_of_template_file_error, no_template_files_to_process_error};
use crate::shared_models::{DestinationFile, SourceFile};

verus! {

/// An entry of a directory of template files, as listed: its name, its path
/// and whether it is a directory.
#[derive(Debug, Clone, PartialEq)]
pub struct ListedEntry {
    pub name: String,
    pub path: String,
    pub is_dir: bool,
}

/// The cause given for a listed path that is not under the template files directory.
pub open spec fn outside_base_cause() -> Seq<char> {
    "the file is not under the template files directory"@
}

/// What `entry`, listed under the template files directory `base`, becomes
/// under `target`: nothing when its name is ignored; else the directory or
/// the file at its path relative to `base`, joined to `target`; an error
/// when its path is not under `base`.
pub open spec fn listed_outcome(
    base: Seq<char>,
    entry: ListedEntry,
    ignores: Set<Seq<char>>,
    target: Seq<char>,
    r: ZatResult<Option<EnrichedTemplateFile>>,
) -> bool {
    if ignores.contains(entry.name@) {
        r == Ok::<Option<EnrichedTemplateFile>, ZatError>(None)
    } else {
        match relative_part(base, entry.path@) {
            None => r matches Err(e) && could_not_determine_base_path_of_template_file_error(
                e,
                base,
                entry.path@,
                outside_base_cause(),
            ),
            Some(rel) => r matches Ok(Some(f)) && if entry.is_dir {
                f matches EnrichedTemplateFile::Dir(d) && d.0@ == path_join(target, rel)
            } else {
                f matches EnrichedTemplateFile::File(s, d) && s.0@ == entry.path@ && d.0@ == path_join(target, rel)
            },
        }
    }
}

/// What a listed entry of the template files directory `base` becomes under `target`.
pub fn listed_template_file(base: &str, entry: &ListedEntry, ignores: &IgnoredFiles, target: &DestinationFile) -> (r: ZatResult<
    Option<EnrichedTemplateFile>,
>)
    ensures
        listed_outcome(base@, *entry, ignores@, target.0@, r),
{
    if ignores.is_ignored(&entry.name) {
        return Ok(None);
    }
    match relative_path(base, entry.path.as_str()) {
        None => Err(
            ZatError::could_not_determine_base_path_of_template_file(
                base,
                entry.path.as_str(),
                "the file is not under the template files directory".to_string(),
            ),
        ),
        Some(rel) => {
            let destination = target.join(rel.as_str());
            if entry.is_dir {
                Ok(Some(EnrichedTemplateFile::Dir(destination)))
            } else {
                Ok(Some(EnrichedTemplateFile::File(SourceFile::new(entry.path.as_str()), destination)))
            }
        },
    }
}

/// The files to write, found under the template files directory `base`; an
/// error when there are none.
pub fn files_to_write(files: Vec<EnrichedTemplateFile>, base: &str) -> (r: ZatResult<Vec<EnrichedTemplateFile>>)
    ensures
        files@.len() == 0 ==> (r matches Err(e) && no_template_files_to_process_error(e, base@)),
        files@.len() > 0 ==> (r matches Ok(v) && v@ == files@),
{
    if files.len() == 0 {
        Err(ZatError::no_template_files_to_process(base))
    } else {
        Ok(files)
    }
}


/// Law: an entry whose name is ignored is left out, file or directory alike.
pub proof fn law_ignored_entries_are_left_out(
    base: Seq<char>,
    entry: ListedEntry,
    ignores: Set<Seq<char>>,
    target: Seq<char>,
    r: ZatResult<Option<EnrichedTemplateFile>>,
)
    requires
        ignores.contains(entry.name@),
        listed_outcome(base, entry, ignores, target, r),
    ensures
        r == Ok::<Option<EnrichedTemplateFile>, ZatError>(None),
{
}

/// Law: an entry whose name is not ignored and whose path lies under the base
/// is kept, under the target at its path relative to the base.
pub proof fn law_other_entries_are_kept(
    base: Seq<char>,
    entry: ListedEntry,
    ignores: Set<Seq<char>>,
    target: Seq<char>,
    r: ZatResult<Option<EnrichedTemplateFile>>,
    rel: Seq<char>,
)
    requires
        !ignores.contains(entry.name@),
        relative_part(base, entry.path@) == Some(rel),
        listed_outcome(base, entry, ignores, target, r),
    ensures
        r matches Ok(Some(f)) && match f {
            EnrichedTemplateFile::Dir(d) => entry.is_dir && d.0@ == path_join(target, rel),
            EnrichedTemplateFile::File(s, d) => !entry.is_dir && s.0@ == entry.path@ && d.0@ == path_join(target, rel),
        },
{
}

} // verus!
