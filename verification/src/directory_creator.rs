//! Creating the directories of the output.

use vstd::prelude::*;
use crate::shared_models::{DestinationFile, StringTokenReplacer, ZatResultX};

verus! {

/// Creates the directory specified after replacing any tokens in its name.
pub trait DirectoryCreator {
    /// Whether `r` is an outcome of creating `destination_directory` with
    /// `replacer`. A creator that does not describe itself promises nothing
    /// of its outcomes.
    open spec fn create_outcome<R: StringTokenReplacer>(&self, destination_directory: DestinationFile, replacer: R, r: ZatResultX<()>) -> bool {
        true
    }

    fn create_directory<R: StringTokenReplacer>(&self, destination_directory: &DestinationFile, replacer: &R) -> (r: ZatResultX<()>)
        ensures
            self.create_outcome(*destination_directory, *replacer, r),
    ;
}

} // verus!
