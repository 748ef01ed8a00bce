use vstd::prelude::*;
use super::ErrorFormat;
use super::error_format::opt_view;

verus! {

/// Why the shell hook run after processing failed.
#[derive(Debug, PartialEq, Clone)]
pub enum PostProcessingErrorReason {
    /// The error, the exception if any, and the possible fix.
    ExecutionError(String, Option<String>, String),
    /// The error and its possible fix.
    NonZeroStatusCode(String, String),
    /// The error and its possible fix.
    ProcessInterrupted(String, String),
}

/// How a post processing error is shown.
pub open spec fn post_processing_error_format(e: PostProcessingErrorReason) -> (Seq<char>, Option<Seq<char>>, Option<Seq<char>>) {
    match e {
        PostProcessingErrorReason::ExecutionError(error, exception, fix) => (error@, opt_view(exception), Some(fix@)),
        PostProcessingErrorReason::NonZeroStatusCode(error, fix) => (error@, None, Some(fix@)),
        PostProcessingErrorReason::ProcessInterrupted(error, fix) => (error@, None, Some(fix@)),
    }
}

impl ErrorFormat {
    pub fn from_post_processing_error(error: &PostProcessingErrorReason) -> (r: ErrorFormat)
        ensures
            r@ == post_processing_error_format(*error),
    {
        match error {
            PostProcessingErrorReason::ExecutionError(error, exception, fix) => {
                let exception = match exception {
                    Some(e) => Some(e),
                    None => None,
                };
                ErrorFormat::new(error, exception, Some(fix))
            },
            PostProcessingErrorReason::NonZeroStatusCode(error, fix) => ErrorFormat::new(error, None, Some(fix)),
            PostProcessingErrorReason::ProcessInterrupted(error, fix) => ErrorFormat::new(error, None, Some(fix)),
        }
    }
}

} // verus!
