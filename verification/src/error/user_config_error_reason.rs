use vstd::prelude::*;
use super::ErrorFormat;

verus! {

/// Why the configuration a user supplied cannot be used: each holds the
/// error and its possible fix.
#[derive(Debug, PartialEq, Clone)]
pub enum UserConfigErrorReason {
    RepositoryDirDoesNotExist(String, String),
    TemplateFilesDirDoesNotExist(String, String),
    TargetDirectoryShouldNotExist(String, String),
}

/// How a configuration error is shown: its error, no exception, its fix.
pub open spec fn user_config_error_format(e: UserConfigErrorReason) -> (Seq<char>, Option<Seq<char>>, Option<Seq<char>>) {
    match e {
        UserConfigErrorReason::RepositoryDirDoesNotExist(error, fix) => (error@, None, Some(fix@)),
        UserConfigErrorReason::TemplateFilesDirDoesNotExist(error, fix) => (error@, None, Some(fix@)),
        UserConfigErrorReason::TargetDirectoryShouldNotExist(error, fix) => (error@, None, Some(fix@)),
    }
}

impl ErrorFormat {
    pub fn from_user_config_error(error: &UserConfigErrorReason) -> (r: ErrorFormat)
        ensures
            r@ == user_config_error_format(*error),
    {
        let (error, fix) = match error {
            UserConfigErrorReason::RepositoryDirDoesNotExist(error, fix) => (error, fix),
            UserConfigErrorReason::TemplateFilesDirDoesNotExist(error, fix) => (error, fix),
            UserConfigErrorReason::TargetDirectoryShouldNotExist(error, fix) => (error, fix),
        };
        ErrorFormat::new(error, None, Some(fix))
    }
}

} // verus!
