//! Where a directory of the output is created, and what is reported when it cannot be.

use vstd::prelude::*;
use crate::shared_models::{DestinationFile, StringTokenReplacer, ZatErrorX};

verus! {

/// Creates a directory of the output.
pub struct DefaultDirectoryCreator;

impl DefaultDirectoryCreator {
    /// The directory to create: the destination with its tokens replaced.
    pub fn directory_to_create<R: StringTokenReplacer>(destination_directory: &DestinationFile, replacer: &R) -> (r: String)
        ensures
            replacer.replaces(destination_directory.0@, r@),
    {
        destination_directory.map(replacer)
    }

    /// The error reported when the directory could not be created, for `cause`.
    pub fn create_error(directory: &str, cause: &str) -> (r: ZatErrorX)
        ensures
            r matches ZatErrorX::WritingFileError(m) && m@ == "Could not created destination directory: "@ + directory@ + "\nCause:"@ + cause@,
    {
        let mut m = "Could not created destination directory: ".to_string();
        m.append(directory);
        m.append("\nCause:");
        m.append(cause);
        ZatErrorX::WritingFileError(m)
    }
}

} // verus!
