use vstd::prelude::*;
use super::SelectedChoices;
use crate::str_map::{pairs_to_map, lemma_pairs_to_map_push, lemma_pairs_to_map_last};
use crate::templates::{Choice, TemplateVariable, UserChoiceValue, UserChoices};
use crate::error::{ZatError, ZatResult};

verus! {

/// Asks the user to select a value for each choice variable, with the menu
/// style of the configuration.
pub struct DefaultChoiceRunner;

/// Whether a variable is a choice variable: one with choices to pick from.
pub open spec fn has_choices(v: TemplateVariable) -> bool {
    v.choices@.len() > 0
}

pub open spec fn with_choices() -> spec_fn(TemplateVariable) -> bool {
    |v: TemplateVariable| has_choices(v)
}

pub open spec fn without_choices() -> spec_fn(TemplateVariable) -> bool {
    |v: TemplateVariable| !has_choices(v)
}

/// The choice made for each choice variable, by the variable's name.
pub open spec fn choice_pairs(variables: Seq<TemplateVariable>, selections: Seq<Choice>) -> Seq<(Seq<char>, (Seq<char>, Seq<char>, Seq<char>))> {
    Seq::new(variables.len(), |i: int| (variables[i].variable_name@, selections[i]@))
}

/// What comes after a question for a choice variable.
#[derive(Debug, PartialEq)]
pub enum ChoiceNext {
    /// Ask for the choice variable at this index.
    Ask(usize),
    /// Stop: the choice could not be had, for this error.
    Stop(ZatError),
    /// Every choice variable has its choice.
    Done,
}

/// Whether `s` is what running the choices of the variables `tokens` can
/// give: for each choice variable, one of its options, kept under the
/// variable's name; and the variables without choices, in order.
pub open spec fn choices_run(tokens: Seq<TemplateVariable>, s: SelectedChoices) -> bool {
    let choice_variables = tokens.filter(with_choices());
    &&& s.variables.tokens@ == tokens.filter(without_choices())
    &&& exists|selections: Seq<Choice>|
        #![trigger choice_pairs(choice_variables, selections)]
        selections.len() == choice_variables.len()
            && (forall|i: int| 0 <= i < selections.len() ==> choice_variables[i].choices@.contains(#[trigger] selections[i]))
            && s.choices@ == pairs_to_map(choice_pairs(choice_variables, selections))
}

impl DefaultChoiceRunner {
    /// The first question: for the first choice variable, if there is one.
    pub fn first_choice(choice_variables: &Vec<TemplateVariable>) -> (r: ChoiceNext)
        ensures
            choice_variables@.len() > 0 ==> r == ChoiceNext::Ask(0),
            choice_variables@.len() == 0 ==> r == ChoiceNext::Done,
    {
        if choice_variables.len() > 0 {
            ChoiceNext::Ask(0)
        } else {
            ChoiceNext::Done
        }
    }

    /// What follows the answer for the next choice variable, the one after
    /// those with a selection: when no choice could be had, stop with that
    /// error and ask nothing more; otherwise keep the choice, then ask for the
    /// following variable, or finish after the last one.
    pub fn after_choice(choice_variables: &Vec<TemplateVariable>, selections: &mut Vec<Choice>, answer: ZatResult<Choice>) -> (r: ChoiceNext)
        requires
            old(selections)@.len() < choice_variables@.len(),
        ensures
            match answer {
                Err(e) => r == ChoiceNext::Stop(e) && final(selections)@ == old(selections)@,
                Ok(c) => {
                    &&& final(selections)@ == old(selections)@.push(c)
                    &&& final(selections)@.len() < choice_variables@.len() ==> r == ChoiceNext::Ask(final(selections)@.len() as usize)
                    &&& final(selections)@.len() == choice_variables@.len() ==> r == ChoiceNext::Done
                },
            },
    {
        match answer {
            Err(e) => ChoiceNext::Stop(e),
            Ok(c) => {
                selections.push(c);
                if selections.len() < choice_variables.len() {
                    ChoiceNext::Ask(selections.len())
                } else {
                    ChoiceNext::Done
                }
            },
        }
    }

    /// Splits the variables into the choice variables and the others, each in order.
    pub fn partition_choice_variables(tokens: Vec<TemplateVariable>) -> (r: (Vec<TemplateVariable>, Vec<TemplateVariable>))
        ensures
            r.0@ == tokens@.filter(with_choices()),
            r.1@ == tokens@.filter(without_choices()),
    {
        let ghost all = tokens@;
        let mut choice_variables: Vec<TemplateVariable> = Vec::new();
        let mut other_variables: Vec<TemplateVariable> = Vec::new();
        for v in it: tokens
            invariant
                it.seq() == all,
                choice_variables@ == all.take(it.index() as int).filter(with_choices()),
                other_variables@ == all.take(it.index() as int).filter(without_choices()),
        {
            let ghost i = it.index();
            proof {
                assert(all.take(i + 1) =~= all.take(i as int).push(v));
                all.take(i as int).lemma_filter_push(v, with_choices());
                all.take(i as int).lemma_filter_push(v, without_choices());
            }
            if v.choices.len() > 0 {
                choice_variables.push(v);
            } else {
                other_variables.push(v);
            }
        }
        assert(all.take(all.len() as int) =~= all);
        (choice_variables, other_variables)
    }

    /// The choices made, the i-th selection being the choice of the i-th
    /// choice variable, with the other variables. A later variable of the same
    /// name overrides an earlier one.
    pub fn selected_choices(
        choice_variables: &Vec<TemplateVariable>,
        selections: Vec<Choice>,
        other_variables: Vec<TemplateVariable>,
    ) -> (r: SelectedChoices)
        requires
            choice_variables@.len() == selections@.len(),
        ensures
            r.choices@ == pairs_to_map(choice_pairs(choice_variables@, selections@)),
            r.variables.tokens == other_variables,
    {
        let ghost all = selections@;
        let ghost pairs = choice_pairs(choice_variables@, all);
        let mut choices: UserChoices = UserChoices::new();
        let n = selections.len();
        let mut i: usize = 0;
        for c in it: selections
            invariant
                it.seq() == all,
                n == all.len(),
                i == it.index(),
                all.len() == choice_variables@.len(),
                pairs == choice_pairs(choice_variables@, all),
                choices@ == pairs_to_map(pairs.take(it.index() as int)),
        {
            let ghost pair = (choice_variables@[i as int].variable_name@, c@);
            choices.insert(choice_variables[i].variable_name.clone(), UserChoiceValue::new(c));
            proof {
                assert(pairs[i as int] == pair);
                assert(pairs.take(i + 1) =~= pairs.take(i as int).push(pair));
                lemma_pairs_to_map_push(pairs.take(i as int), pair);
            }
            i = i + 1;
        }
        assert(pairs.take(pairs.len() as int) =~= pairs);
        SelectedChoices::new(choices, other_variables)
    }
}


/// Law: when the choice variables have distinct names, the choice kept under
/// each variable's name is the selection made for that variable.
pub proof fn law_choice_kept_under_its_variable(variables: Seq<TemplateVariable>, selections: Seq<Choice>, i: int)
    requires
        variables.len() == selections.len(),
        0 <= i < variables.len(),
        forall|a: int, b: int|
            0 <= a < b < variables.len() ==> #[trigger] variables[a].variable_name@ != #[trigger] variables[b].variable_name@,
    ensures
        pairs_to_map(choice_pairs(variables, selections)).dom().contains(variables[i].variable_name@),
        pairs_to_map(choice_pairs(variables, selections))[variables[i].variable_name@] == selections[i]@,
{
    let s = choice_pairs(variables, selections);
    let k = variables[i].variable_name@;
    assert forall|l: int| i < l < s.len() implies #[trigger] s[l].0 != k by {
        assert(s[l].0 == variables[l].variable_name@);
    }
    lemma_pairs_to_map_last(s, k, i);
}

} // verus!
