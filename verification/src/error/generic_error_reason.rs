use vstd::prelude::*;
use super::ErrorFormat;

verus! {

/// An error that fits no other kind.
#[derive(Debug, Clone, PartialEq)]
pub struct GenericErrorReason {
    pub error: String,
    pub exception: String,
    pub fix: String,
}

/// How a generic error is shown: its error, exception and fix.
pub open spec fn generic_error_format(e: GenericErrorReason) -> (Seq<char>, Option<Seq<char>>, Option<Seq<char>>) {
    (e.error@, Some(e.exception@), Some(e.fix@))
}

impl ErrorFormat {
    pub fn from_generic_error(error: &GenericErrorReason) -> (r: ErrorFormat)
        ensures
            r@ == generic_error_format(*error),
    {
        ErrorFormat::new(&error.error, Some(&error.exception), Some(&error.fix))
    }
}

} // verus!
