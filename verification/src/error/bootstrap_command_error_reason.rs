use vstd::prelude::*;
use super::ErrorFormat;

verus! {

/// Why a bootstrap repository could not be created.
#[derive(Debug, PartialEq, Clone)]
pub enum BootstrapCommandErrorReason {
    /// The error and its possible fix.
    RepositoryDirectoryShouldNotExist(String, String),
    /// The error, the exception and the possible fix.
    CouldNotCreateRepositoryDirectory(String, String, String),
    /// The error, the exception and the possible fix.
    CouldNotCreateFile(String, String, String),
}

/// How a bootstrap error is shown.
pub open spec fn bootstrap_command_error_format(e: BootstrapCommandErrorReason) -> (Seq<char>, Option<Seq<char>>, Option<Seq<char>>) {
    match e {
        BootstrapCommandErrorReason::RepositoryDirectoryShouldNotExist(error, fix) => (error@, None, Some(fix@)),
        BootstrapCommandErrorReason::CouldNotCreateRepositoryDirectory(error, exception, fix) => (error@, Some(exception@), Some(fix@)),
        BootstrapCommandErrorReason::CouldNotCreateFile(error, exception, fix) => (error@, Some(exception@), Some(fix@)),
    }
}

impl ErrorFormat {
    pub fn from_bootstrap_command_error(error: &BootstrapCommandErrorReason) -> (r: ErrorFormat)
        ensures
            r@ == bootstrap_command_error_format(*error),
    {
        let (error, exception, fix) = match error {
            BootstrapCommandErrorReason::RepositoryDirectoryShouldNotExist(error, fix) => (error, None, fix),
            BootstrapCommandErrorReason::CouldNotCreateRepositoryDirectory(error, exception, fix) => (error, Some(exception), fix),
            BootstrapCommandErrorReason::CouldNotCreateFile(error, exception, fix) => (error, Some(exception), fix),
        };
        ErrorFormat::new(error, exception, Some(fix))
    }
}

} // verus!
