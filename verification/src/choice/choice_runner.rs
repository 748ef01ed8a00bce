use vstd::prelude::*;
use super::SelectedChoices;
use crate::config::UserConfig;
use crate::error::ZatResult;
use crate::templates::TemplateVariables;
use super::default_choice_runner::choices_run;

verus! {

/// Asks the user to select the value of each choice variable and returns the result.
pub trait ChoiceRunner {
    /// On success, one of its options for each choice variable, with the
    /// variables that have no choices; a failure is getting no choice.
    fn run_choices(templates: TemplateVariables, user_config: &UserConfig) -> (r: ZatResult<SelectedChoices>)
        ensures
            r matches Ok(s) ==> choices_run(templates.tokens@, s),
    ;
}

} // verus!
