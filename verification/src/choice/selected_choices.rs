use vstd::prelude::*;
use crate::templates::{TemplateVariable, TemplateVariables, UserChoices};

verus! {

/// The choices a user made, and the variables that are not choices.
#[derive(Debug, PartialEq)]
pub struct SelectedChoices {
    pub choices: UserChoices,
    pub variables: TemplateVariables,
}

impl SelectedChoices {
    pub fn new(choices: UserChoices, variables: Vec<TemplateVariable>) -> (r: Self)
        ensures
            r.choices@ == choices@,
            r.variables.tokens == variables,
    {
        SelectedChoices { choices, variables: TemplateVariables::new(variables) }
    }
}

} // verus!
