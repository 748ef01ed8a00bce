use vstd::prelude::*;
use crate::templates::{TemplateVariables, UserChoices};

verus! {

/// Removes the variables whose scopes do not match the choices made.
pub trait ChoiceScopeFilter {
    fn filter_scopes(choices: &UserChoices, variables: &mut TemplateVariables);
}

} // verus!
