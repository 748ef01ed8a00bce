use vstd::prelude::*;
use super::ErrorFormat;

verus! {

/// Why the variable file cannot be used: each holds the error and its possible fix.
#[derive(Debug, PartialEq, Clone)]
pub enum VariableFileErrorReason {
    VariableFileNotFound(String, String),
    VariableFileHasNoVariableDefinitions(String, String),
    VariableOpenError(String, String),
    VariableReadError(String, String),
    VariableDecodeError(String, String),
}

/// How a variable file error is shown: its error, no exception, its fix.
pub open spec fn variable_file_error_format(e: VariableFileErrorReason) -> (Seq<char>, Option<Seq<char>>, Option<Seq<char>>) {
    match e {
        VariableFileErrorReason::VariableFileNotFound(error, fix) => (error@, None, Some(fix@)),
        VariableFileErrorReason::VariableFileHasNoVariableDefinitions(error, fix) => (error@, None, Some(fix@)),
        VariableFileErrorReason::VariableOpenError(error, fix) => (error@, None, Some(fix@)),
        VariableFileErrorReason::VariableReadError(error, fix) => (error@, None, Some(fix@)),
        VariableFileErrorReason::VariableDecodeError(error, fix) => (error@, None, Some(fix@)),
    }
}

impl ErrorFormat {
    pub fn from_variable_file_error(error: &VariableFileErrorReason) -> (r: ErrorFormat)
        ensures
            r@ == variable_file_error_format(*error),
    {
        let (error, fix) = match error {
            VariableFileErrorReason::VariableFileNotFound(error, fix) => (error, fix),
            VariableFileErrorReason::VariableFileHasNoVariableDefinitions(error, fix) => (error, fix),
            VariableFileErrorReason::VariableOpenError(error, fix) => (error, fix),
            VariableFileErrorReason::VariableReadError(error, fix) => (error, fix),
            VariableFileErrorReason::VariableDecodeError(error, fix) => (error, fix),
        };
        ErrorFormat::new(error, None, Some(fix))
    }
}

} // verus!
