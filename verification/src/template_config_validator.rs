//! Asking the user for the values of the variables, and having them confirmed.

use vstd::prelude::*;
use crate::config::UserConfigX;
use crate::str_map::{pairs_to_map, lemma_pairs_to_map_push};
use crate::templates::{TemplateVariable, TemplateVariables, UserVariableValue, UserVariables};

verus! {

/// The values the user confirmed, with the configuration they apply to.
#[derive(Debug, PartialEq)]
pub struct ValidConfig {
    pub user_variables: UserVariables,
    pub user_config: UserConfigX,
}

impl ValidConfig {
    pub fn new(user_variables: UserVariables, user_config: UserConfigX) -> (r: Self)
        ensures
            r.user_variables@ == user_variables@,
            r.user_config == user_config,
    {
        ValidConfig { user_variables, user_config }
    }
}

/// Whether the user confirmed the values supplied.
#[derive(Debug, PartialEq)]
pub enum TemplateVariableReview {
    Accepted(ValidConfig),
    Rejected,
}

/// Asks for the values of the variables and has them confirmed.
pub trait TemplateConfigValidator {
    fn validate(&self, user_config: UserConfigX, template_variables: TemplateVariables) -> TemplateVariableReview;
}

/// Asks the user for the value of each variable.
pub trait UserInputProvider {
    /// Whether `values`, by variable name, is an answer this provider gives
    /// when asked for `variables`. A provider that does not describe itself
    /// promises nothing of its answers.
    open spec fn input_outcome(&self, variables: TemplateVariables, values: Map<Seq<char>, Seq<char>>) -> bool {
        true
    }

    fn get_user_input(&self, variables: TemplateVariables) -> (r: UserVariables)
        ensures
            self.input_outcome(variables, r@),
    ;
}

/// Asks the user to confirm the values supplied.
pub trait UserTemplateVariableValidator {
    /// Whether `review` is a verdict this validator gives on the values
    /// `variables` under `user_config`. A validator that does not describe
    /// itself promises nothing of its verdicts.
    open spec fn review_outcome(&self, user_config: UserConfigX, variables: Map<Seq<char>, Seq<char>>, review: TemplateVariableReview) -> bool {
        true
    }

    fn review_user_template_variables(&self, user_config: UserConfigX, variables: UserVariables) -> (r: TemplateVariableReview)
        ensures
            self.review_outcome(user_config, variables@, r),
    ;
}

/// Whether the values supplied are confirmed.
#[derive(Debug, Clone, Copy, PartialEq, Eq)]
pub enum UserVariablesValidity {
    Valid,
    Invalid,
}

/// Asks for the values, then has them reviewed, each by the given provider.
pub struct DefaultTemplateConfigValidator<P: UserInputProvider, V: UserTemplateVariableValidator> {
    pub user_input_provider: P,
    pub user_template_variable_validator: V,
}

impl<P: UserInputProvider, V: UserTemplateVariableValidator> DefaultTemplateConfigValidator<P, V> {
    pub fn with_all_dependencies(user_input_provider: P, user_template_variable_validator: V) -> (r: Self)
        ensures
            r.user_input_provider == user_input_provider,
            r.user_template_variable_validator == user_template_variable_validator,
    {
        DefaultTemplateConfigValidator { user_input_provider, user_template_variable_validator }
    }
}

impl<P: UserInputProvider, V: UserTemplateVariableValidator> TemplateConfigValidator for DefaultTemplateConfigValidator<P, V> {
    /// The review of the values the provider asked for: the validator's
    /// verdict on an answer of the provider for the variables.
    fn validate(&self, user_config: UserConfigX, template_variables: TemplateVariables) -> (r: TemplateVariableReview)
        ensures
            exists|values: Map<Seq<char>, Seq<char>>|
                #[trigger] self.user_input_provider.input_outcome(template_variables, values)
                    && self.user_template_variable_validator.review_outcome(user_config, values, r),
    {
        let ghost variables = template_variables;
        let ghost config = user_config;
        let user_variables = self.user_input_provider.get_user_input(template_variables);
        let ghost values = user_variables@;
        let r = self.user_template_variable_validator.review_user_template_variables(user_config, user_variables);
        assert(self.user_input_provider.input_outcome(variables, values));
        assert(self.user_template_variable_validator.review_outcome(config, values, r));
        r
    }
}

/// What a line read for a variable supplies: nothing when nothing was read
/// or only its line break; otherwise the line without its last character.
pub open spec fn supplied_value(line: Option<Seq<char>>) -> Option<Seq<char>> {
    match line {
        Some(l) => if l.len() > 1 { Some(l.drop_last()) } else { None },
        None => None,
    }
}

/// The values supplied by the lines read for the variables, in order.
pub open spec fn supplied_pairs(variables: Seq<TemplateVariable>, lines: Seq<Option<Seq<char>>>) -> Seq<(Seq<char>, Seq<char>)>
    decreases variables.len(),
{
    if variables.len() == 0 || lines.len() != variables.len() {
        Seq::empty()
    } else {
        let rest = supplied_pairs(variables.drop_last(), lines.drop_last());
        match supplied_value(lines.last()) {
            Some(v) => rest.push((variables.last().variable_name@, v)),
            None => rest,
        }
    }
}

/// The view of an optional line.
pub open spec fn line_view(l: Option<String>) -> Option<Seq<char>> {
    match l {
        Some(s) => Some(s@),
        None => None,
    }
}

/// The first line of a text, as `str::lines` gives it: up to the first line
/// break, without a carriage return before it.
pub open spec fn first_line(s: Seq<char>) -> Seq<char> {
    let end = if exists|i: int| 0 <= i < s.len() && s[i] == '\n' {
        choose|i: int| 0 <= i < s.len() && s[i] == '\n' && forall|j: int| 0 <= j < i ==> s[j] != '\n'
    } else {
        s.len() as int
    };
    let line = s.subrange(0, end);
    if line.len() > 0 && line.last() == '\r' {
        line.drop_last()
    } else {
        line
    }
}

/// Reads the values of the variables from the user.
pub struct Cli;

impl Cli {
    /// The values supplied by the lines read for the variables: the i-th line,
    /// when one was read, is the value of the i-th variable without its line
    /// break, unless it is empty.
    pub fn user_inputs_from_lines(variables: &TemplateVariables, lines: Vec<Option<String>>) -> (r: UserVariables)
        requires
            lines@.len() == variables.tokens@.len(),
        ensures
            r@ == pairs_to_map(supplied_pairs(variables.tokens@, lines@.map_values(|l: Option<String>| line_view(l)))),
    {
        let ghost tokens = variables.tokens@;
        let ghost lv = lines@.map_values(|l: Option<String>| line_view(l));
        let mut token_map = UserVariables::new();
        let n = lines.len();
        let mut i: usize = 0;
        for line in it: lines
            invariant
                it.seq().map_values(|l: Option<String>| line_view(l)) == lv,
                n == lv.len(),
                lv.len() == tokens.len(),
                tokens == variables.tokens@,
                i == it.index(),
                token_map@ == pairs_to_map(supplied_pairs(tokens.take(i as int), lv.take(i as int))),
        {
            proof {
                assert(tokens.take(i + 1).drop_last() =~= tokens.take(i as int));
                assert(lv.take(i + 1).drop_last() =~= lv.take(i as int));
                assert(lv.take(i + 1).last() == line_view(line));
                assert(tokens.take(i + 1).last() == tokens[i as int]);
            }
            match line {
                Some(l) => {
                    let len = l.as_str().unicode_len();
                    if len > 1 {
                        let value = l.as_str().substring_char(0, len - 1).to_string();
                        assert(value@ =~= l@.drop_last());
                        let ghost pair = (variables.tokens@[i as int].variable_name@, value@);
                        let ghost before = supplied_pairs(tokens.take(i as int), lv.take(i as int));
                        token_map.insert(variables.tokens[i].variable_name.clone(), UserVariableValue::new(value));
                        proof {
                            lemma_pairs_to_map_push(before, pair);
                        }
                    }
                },
                None => {},
            }
            i = i + 1;
        }
        proof {
            assert(tokens.take(n as int) =~= tokens);
            assert(lv.take(n as int) =~= lv);
        }
        token_map
    }

    /// Whether the response confirms the values: its first line is `y`.
    /// A response with no line at all is not one this accepts.
    pub fn check_user_input(response: &str) -> (r: UserVariablesValidity)
        requires
            response@.len() > 0,
        ensures
            (r == UserVariablesValidity::Valid) == (first_line(response@) == "y"@),
    {
        let n = response.unicode_len();
        let mut i: usize = 0;
        while i < n && response.get_char(i) != '\n'
            invariant
                n == response@.len(),
                0 <= i <= n,
                forall|j: int| 0 <= j < i ==> response@[j] != '\n',
            decreases n - i,
        {
            i = i + 1;
        }
        let ghost s = response@;
        proof {
            if exists|k: int| 0 <= k < s.len() && s[k] == '\n' {
                let w = choose|k: int| 0 <= k < s.len() && s[k] == '\n';
                assert(i <= w);
                assert(0 <= i < s.len() && s[i as int] == '\n' && forall|j: int| 0 <= j < i ==> s[j] != '\n');
                let e = choose|k: int| 0 <= k < s.len() && s[k] == '\n' && forall|j: int| 0 <= j < k ==> s[j] != '\n';
                assert(e == i) by {
                    if e < i {
                        assert(s[e] != '\n');
                    }
                    if e > i {
                        assert(s[i as int] != '\n');
                    }
                }
            }
            reveal_strlit("y");
        }
        let end = if i > 0 && response.get_char(i - 1) == '\r' { i - 1 } else { i };
        proof {
            let line = s.subrange(0, i as int);
            assert(first_line(s) =~= s.subrange(0, end as int));
        }
        if end == 1 && response.get_char(0) == 'y' {
            assert(s.subrange(0, 1) =~= "y"@);
            UserVariablesValidity::Valid
        } else {
            assert(s.subrange(0, end as int).len() != 1 || s.subrange(0, end as int)[0] != "y"@[0]);
            UserVariablesValidity::Invalid
        }
    }
}


/// The keys of the supplied values are names of the variables.
proof fn lemma_supplied_keys(variables: Seq<TemplateVariable>, lines: Seq<Option<Seq<char>>>, k: Seq<char>)
    requires
        lines.len() == variables.len(),
        pairs_to_map(supplied_pairs(variables, lines)).dom().contains(k),
    ensures
        exists|j: int| 0 <= j < variables.len() && #[trigger] variables[j].variable_name@ == k,
    decreases variables.len(),
{
    let rest = supplied_pairs(variables.drop_last(), lines.drop_last());
    let l = variables.len() - 1;
    match supplied_value(lines.last()) {
        Some(v) => {
            lemma_pairs_to_map_push(rest, (variables.last().variable_name@, v));
            if k != variables.last().variable_name@ {
                lemma_supplied_keys(variables.drop_last(), lines.drop_last(), k);
                let j = choose|j: int| 0 <= j < l && #[trigger] variables.drop_last()[j].variable_name@ == k;
                assert(variables[j].variable_name@ == k);
            } else {
                assert(variables[l].variable_name@ == k);
            }
        },
        None => {
            lemma_supplied_keys(variables.drop_last(), lines.drop_last(), k);
            let j = choose|j: int| 0 <= j < l && #[trigger] variables.drop_last()[j].variable_name@ == k;
            assert(variables[j].variable_name@ == k);
        },
    }
}

/// Law: when the variables have distinct names, a line that holds more than
/// its line break supplies the variable's value, the line without its line
/// break; an empty line, a bare line break or no line supplies none.
pub proof fn law_line_supplies_its_value(variables: Seq<TemplateVariable>, lines: Seq<Option<Seq<char>>>, i: int)
    requires
        lines.len() == variables.len(),
        0 <= i < variables.len(),
        forall|a: int, b: int|
            0 <= a < b < variables.len() ==> #[trigger] variables[a].variable_name@ != #[trigger] variables[b].variable_name@,
    ensures
        lines[i] is Some && lines[i]->0.len() >= 2 ==> {
            &&& pairs_to_map(supplied_pairs(variables, lines)).dom().contains(variables[i].variable_name@)
            &&& pairs_to_map(supplied_pairs(variables, lines))[variables[i].variable_name@] == lines[i]->0.drop_last()
        },
        lines[i] is None || lines[i]->0.len() < 2 ==> !pairs_to_map(supplied_pairs(variables, lines)).dom().contains(
            variables[i].variable_name@,
        ),
    decreases variables.len(),
{
    let k = variables[i].variable_name@;
    let vs = variables.drop_last();
    let ls = lines.drop_last();
    let rest = supplied_pairs(vs, ls);
    let l = variables.len() - 1;
    if i < l {
        assert forall|a: int, b: int| 0 <= a < b < vs.len() implies #[trigger] vs[a].variable_name@ != #[trigger] vs[b].variable_name@ by {
            assert(vs[a] == variables[a] && vs[b] == variables[b]);
        }
        assert(vs[i] == variables[i] && ls[i] == lines[i]);
        law_line_supplies_its_value(vs, ls, i);
        assert(variables[i].variable_name@ != variables[l].variable_name@);
        match supplied_value(lines.last()) {
            Some(v) => lemma_pairs_to_map_push(rest, (variables.last().variable_name@, v)),
            None => {},
        }
    } else {
        match supplied_value(lines.last()) {
            Some(v) => lemma_pairs_to_map_push(rest, (variables.last().variable_name@, v)),
            None => {
                if pairs_to_map(rest).dom().contains(k) {
                    lemma_supplied_keys(vs, ls, k);
                    let j = choose|j: int| 0 <= j < vs.len() && #[trigger] vs[j].variable_name@ == k;
                    assert(vs[j] == variables[j]);
                }
            },
        }
    }
}

} // verus!
