use vstd::prelude::*;

verus! {

/// An error, laid out for the user: what went wrong, the exception that
/// caused it if any, and what might fix it.
#[derive(Debug, Clone, PartialEq)]
pub struct ErrorFormat {
    pub error_reason: String,
    pub exception: Option<String>,
    pub remediation: Option<String>,
}

/// The view of an optional string.
pub open spec fn opt_view(o: Option<String>) -> Option<Seq<char>> {
    match o {
        Some(s) => Some(s@),
        None => None,
    }
}

impl View for ErrorFormat {
    type V = (Seq<char>, Option<Seq<char>>, Option<Seq<char>>);

    open spec fn view(&self) -> (Seq<char>, Option<Seq<char>>, Option<Seq<char>>) {
        (self.error_reason@, opt_view(self.exception), opt_view(self.remediation))
    }
}

impl ErrorFormat {
    /// An error with neither an exception nor a remediation shown.
    pub fn new(error_reason: &String, exception: Option<&String>, remediation: Option<&String>) -> (r: Self)
        ensures
            r.error_reason@ == error_reason@,
            exception is None ==> r.exception is None,
            exception matches Some(e) ==> r.exception matches Some(x) && x@ == e@,
            remediation is None ==> r.remediation is None,
            remediation matches Some(e) ==> r.remediation matches Some(x) && x@ == e@,
    {
        ErrorFormat {
            error_reason: error_reason.clone(),
            exception: match exception {
                Some(e) => Some(e.clone()),
                None => None,
            },
            remediation: match remediation {
                Some(e) => Some(e.clone()),
                None => None,
            },
        }
    }
}

} // verus!
