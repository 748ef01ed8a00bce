use vstd::prelude::*;
use super::ErrorFormat;

verus! {

/// Why a remote repository could not be processed. The variants with two
/// strings hold the error and its possible fix; those with three hold the
/// error, the exception and the possible fix.
#[derive(Debug, PartialEq, Clone)]
pub enum ProcessRemoteCommandErrorReason {
    HomeDirectoryDoesNotExist(String, String),
    HomeDirectoryCannotBeRead(String, String, String),
    HomeDirectoryPathIsNotADirectory(String, String),
    RemoteRepositoryUrlIsInvalid(String, String, String),
    RemoteRepositoryUrlHostnameIsInvalid(String, String),
    RemoteRepositoryCouldNotCreateLocalCheckoutDirectory(String, String, String),
    CouldNotCreateCheckoutDirectory(String, String, String),
    CouldNotCreateCheckoutDirectoryStructure(String, String, String),
    GitCloneFailed(String, String, String),
    GitCloneStatusError(String, String),
}

/// How a remote processing error is shown.
pub open spec fn process_remote_command_error_format(e: ProcessRemoteCommandErrorReason) -> (Seq<char>, Option<Seq<char>>, Option<Seq<char>>) {
    match e {
        ProcessRemoteCommandErrorReason::HomeDirectoryDoesNotExist(error, fix) => (error@, None, Some(fix@)),
        ProcessRemoteCommandErrorReason::HomeDirectoryCannotBeRead(error, exception, fix) => (error@, Some(exception@), Some(fix@)),
        ProcessRemoteCommandErrorReason::HomeDirectoryPathIsNotADirectory(error, fix) => (error@, None, Some(fix@)),
        ProcessRemoteCommandErrorReason::RemoteRepositoryUrlIsInvalid(error, exception, fix) => (error@, Some(exception@), Some(fix@)),
        ProcessRemoteCommandErrorReason::RemoteRepositoryUrlHostnameIsInvalid(error, fix) => (error@, None, Some(fix@)),
        ProcessRemoteCommandErrorReason::RemoteRepositoryCouldNotCreateLocalCheckoutDirectory(error, exception, fix) => (error@, Some(exception@), Some(fix@)),
        ProcessRemoteCommandErrorReason::CouldNotCreateCheckoutDirectory(error, exception, fix) => (error@, Some(exception@), Some(fix@)),
        ProcessRemoteCommandErrorReason::CouldNotCreateCheckoutDirectoryStructure(error, exception, fix) => (error@, Some(exception@), Some(fix@)),
        ProcessRemoteCommandErrorReason::GitCloneFailed(error, exception, fix) => (error@, Some(exception@), Some(fix@)),
        ProcessRemoteCommandErrorReason::GitCloneStatusError(error, fix) => (error@, None, Some(fix@)),
    }
}

impl ErrorFormat {
    pub fn from_process_remote_command_error(error: &ProcessRemoteCommandErrorReason) -> (r: ErrorFormat)
        ensures
            r@ == process_remote_command_error_format(*error),
    {
        let (error, exception, fix) = match error {
            ProcessRemoteCommandErrorReason::HomeDirectoryDoesNotExist(error, fix) => (error, None, fix),
            ProcessRemoteCommandErrorReason::HomeDirectoryCannotBeRead(error, exception, fix) => (error, Some(exception), fix),
            ProcessRemoteCommandErrorReason::HomeDirectoryPathIsNotADirectory(error, fix) => (error, None, fix),
            ProcessRemoteCommandErrorReason::RemoteRepositoryUrlIsInvalid(error, exception, fix) => (error, Some(exception), fix),
            ProcessRemoteCommandErrorReason::RemoteRepositoryUrlHostnameIsInvalid(error, fix) => (error, None, fix),
            ProcessRemoteCommandErrorReason::RemoteRepositoryCouldNotCreateLocalCheckoutDirectory(error, exception, fix) => (error, Some(exception), fix),
            ProcessRemoteCommandErrorReason::CouldNotCreateCheckoutDirectory(error, exception, fix) => (error, Some(exception), fix),
            ProcessRemoteCommandErrorReason::CouldNotCreateCheckoutDirectoryStructure(error, exception, fix) => (error, Some(exception), fix),
            ProcessRemoteCommandErrorReason::GitCloneFailed(error, exception, fix) => (error, Some(exception), fix),
            ProcessRemoteCommandErrorReason::GitCloneStatusError(error, fix) => (error, None, fix),
        };
        ErrorFormat::new(error, exception, Some(fix))
    }
}

} // verus!
