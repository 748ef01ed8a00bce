use vstd::prelude::*;
use crate::error::{ZatError, ZatResult};
use crate::templates::Choice;

verus! {

/// Asks for a choice with a menu the user filters by typing and selects from.
pub struct SelectionChoiceStyle;

/// The error reported when the menu gave no selection.
pub const NO_SELECTION: &'static str = "Could not get successful result from choice. ERROR_ID: 1000";

/// The error reported when the menu gave a selection that is not one of the items.
pub const INVALID_SELECTION: &'static str = "Could not get successful result from choice. ERROR_ID: 1001";

/// The exception reported with an invalid selection.
pub const INVALID_SELECTION_INDEX: &'static str = "Invalid selection index: {index}";

/// Whether `e` is a generic error with this error and exception, and no fix.
pub open spec fn is_generic_error(e: ZatError, error: Seq<char>, exception: Seq<char>) -> bool {
    e matches ZatError::GenericError(g) && g.error@ == error && g.exception@ == exception && g.fix@ == Seq::<char>::empty()
}

impl SelectionChoiceStyle {
    /// The item a menu's outcome selects: the item at the selected index;
    /// an error when the menu failed, with its cause, or when the index is
    /// not that of an item.
    pub fn selection<'a>(items: &'a [&'a Choice], outcome: Result<usize, String>) -> (r: ZatResult<&'a Choice>)
        ensures
            match outcome {
                Err(cause) => r matches Err(e) && is_generic_error(e, NO_SELECTION@, cause@),
                Ok(index) => if index < items@.len() {
                    r matches Ok(c) && c == items@[index as int]
                } else {
                    r matches Err(e) && is_generic_error(e, INVALID_SELECTION@, INVALID_SELECTION_INDEX@)
                },
            },
    {
        match outcome {
            Err(cause) => Err(ZatError::generic_error(NO_SELECTION, cause)),
            Ok(index) => if index < items.len() {
                Ok(items[index])
            } else {
                Err(ZatError::generic_error(INVALID_SELECTION, INVALID_SELECTION_INDEX.to_string()))
            },
        }
    }
}

} // verus!
