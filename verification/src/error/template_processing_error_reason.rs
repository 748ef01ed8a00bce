use vstd::prelude::*;
use super::ErrorFormat;

verus! {

/// Why the template files could not be processed.
#[derive(Debug, PartialEq, Clone)]
pub enum TemplateProcessingErrorReason {
    /// The error and its possible fix.
    NoFilesToProcessError(String, String),
    ReadingFileError(ReasonFileErrorReason),
    /// The error, the exception and the possible fix.
    WritingFileError(String, String, String),
    /// The error, the exception and the possible fix.
    DirectoryCreationError(String, String, String),
}

/// Why a template file could not be read: each holds the error, the exception
/// and the possible fix.
#[derive(Debug, PartialEq, Clone)]
pub enum ReasonFileErrorReason {
    ReadingError(String, String, String),
    UnsupportedContentError(String, String, String),
    PrefixError(String, String, String),
}

/// How a template processing error is shown.
pub open spec fn template_processing_error_format(e: TemplateProcessingErrorReason) -> (Seq<char>, Option<Seq<char>>, Option<Seq<char>>) {
    match e {
        TemplateProcessingErrorReason::NoFilesToProcessError(error, fix) => (error@, None, Some(fix@)),
        TemplateProcessingErrorReason::ReadingFileError(r) => match r {
            ReasonFileErrorReason::ReadingError(error, exception, fix) => (error@, Some(exception@), Some(fix@)),
            ReasonFileErrorReason::UnsupportedContentError(error, exception, fix) => (error@, Some(exception@), Some(fix@)),
            ReasonFileErrorReason::PrefixError(error, exception, fix) => (error@, Some(exception@), Some(fix@)),
        },
        TemplateProcessingErrorReason::WritingFileError(error, exception, fix) => (error@, Some(exception@), Some(fix@)),
        TemplateProcessingErrorReason::DirectoryCreationError(error, exception, fix) => (error@, Some(exception@), Some(fix@)),
    }
}

impl ErrorFormat {
    pub fn from_template_processing_error(error: &TemplateProcessingErrorReason) -> (r: ErrorFormat)
        ensures
            r@ == template_processing_error_format(*error),
    {
        let (error, exception, fix) = match error {
            TemplateProcessingErrorReason::NoFilesToProcessError(error, fix) => (error, None, fix),
            TemplateProcessingErrorReason::ReadingFileError(ReasonFileErrorReason::ReadingError(error, exception, fix)) => (error, Some(exception), fix),
            TemplateProcessingErrorReason::ReadingFileError(ReasonFileErrorReason::UnsupportedContentError(error, exception, fix)) => (error, Some(exception), fix),
            TemplateProcessingErrorReason::ReadingFileError(ReasonFileErrorReason::PrefixError(error, exception, fix)) => (error, Some(exception), fix),
            TemplateProcessingErrorReason::WritingFileError(error, exception, fix) => (error, Some(exception), fix),
            TemplateProcessingErrorReason::DirectoryCreationError(error, exception, fix) => (error, Some(exception), fix),
        };
        ErrorFormat::new(error, exception, Some(fix))
    }
}

} // verus!
