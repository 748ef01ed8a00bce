use vstd::prelude::*;
use crate::error::ZatResult;

verus! {

/// A way of asking the user to pick one of several items.
pub trait ChoiceStyle<T> {
    fn get_choice<'a>(prompt: &str, items: &'a [&'a T]) -> ZatResult<&'a T>;
}

} // verus!
