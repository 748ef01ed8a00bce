//! The variables a template repository defines, the choices a user can make,
//! and the scopes that tie variables to choices.

use vstd::prelude::*;
use crate::str_map::StrMap;

verus! {

/// One option of a choice variable, as shown to the user.
#[derive(Debug, Clone, PartialEq)]
pub struct Choice {
    pub display: String,
    pub description: String,
    pub value: String,
}

impl View for Choice {
    type V = (Seq<char>, Seq<char>, Seq<char>);

    open spec fn view(&self) -> (Seq<char>, Seq<char>, Seq<char>) {
        (self.display@, self.description@, self.value@)
    }
}

impl Choice {
    pub fn new(display: &str, description: &str, value: &str) -> (r: Self)
        ensures
            r@ == (display@, description@, value@),
    {
        Choice {
            display: display.to_string(),
            description: description.to_string(),
            value: value.to_string(),
        }
    }

    /// A copy of this choice.
    pub fn duplicate(&self) -> (r: Self)
        ensures
            r@ == self@,
    {
        Choice {
            display: self.display.clone(),
            description: self.description.clone(),
            value: self.value.clone(),
        }
    }
}

/// The name of a choice variable, under which the user's choice is kept.
#[derive(Debug, Clone, PartialEq)]
pub struct UserChoiceKey {
    pub value: String,
}

impl View for UserChoiceKey {
    type V = Seq<char>;

    open spec fn view(&self) -> Seq<char> {
        self.value@
    }
}

impl UserChoiceKey {
    pub fn new(value: String) -> (r: Self)
        ensures
            r@ == value@,
    {
        UserChoiceKey { value }
    }
}

/// The choice a user made for a choice variable.
#[derive(Debug, Clone, PartialEq)]
pub struct UserChoiceValue {
    pub value: Choice,
}

impl View for UserChoiceValue {
    type V = (Seq<char>, Seq<char>, Seq<char>);

    open spec fn view(&self) -> (Seq<char>, Seq<char>, Seq<char>) {
        self.value@
    }
}

impl UserChoiceValue {
    pub fn new(value: Choice) -> (r: Self)
        ensures
            r@ == value@,
    {
        UserChoiceValue { value }
    }
}

/// The choices a user made, by choice variable name.
pub type UserChoices = StrMap<UserChoiceValue>;

/// Includes a variable when the choice `choice` was made with the value `value`.
#[derive(Debug, Clone, PartialEq)]
pub struct IncludeChoiceValue {
    pub choice: String,
    pub value: String,
}

/// Includes a variable when the choice `choice` was made.
#[derive(Debug, Clone, PartialEq)]
pub struct IncludeChoice {
    pub choice: String,
}

/// Excludes a variable when the choice `choice` was made with the value `not_value`.
#[derive(Debug, Clone, PartialEq)]
pub struct ExcludeChoiceValue {
    pub choice: String,
    pub not_value: String,
}

/// Excludes a variable when the choice `not_choice` was made.
#[derive(Debug, Clone, PartialEq)]
pub struct ExcludeChoice {
    pub not_choice: String,
}

impl IncludeChoiceValue {
    pub fn new(choice: &str, value: &str) -> (r: Self)
        ensures
            r.choice@ == choice@,
            r.value@ == value@,
    {
        IncludeChoiceValue { choice: choice.to_string(), value: value.to_string() }
    }
}

impl IncludeChoice {
    pub fn new(choice: &str) -> (r: Self)
        ensures
            r.choice@ == choice@,
    {
        IncludeChoice { choice: choice.to_string() }
    }
}

impl ExcludeChoiceValue {
    pub fn new(choice: &str, not_value: &str) -> (r: Self)
        ensures
            r.choice@ == choice@,
            r.not_value@ == not_value@,
    {
        ExcludeChoiceValue { choice: choice.to_string(), not_value: not_value.to_string() }
    }
}

impl ExcludeChoice {
    pub fn new(not_choice: &str) -> (r: Self)
        ensures
            r.not_choice@ == not_choice@,
    {
        ExcludeChoice { not_choice: not_choice.to_string() }
    }
}

/// Ties a variable to the choices a user makes.
#[derive(Debug, Clone, PartialEq)]
pub enum Scope {
    IncludeChoiceValueScope(IncludeChoiceValue),
    IncludeChoiceScope(IncludeChoice),
    ExcludeChoiceValueScope(ExcludeChoiceValue),
    ExcludeChoiceScope(ExcludeChoice),
}

impl Scope {
    pub fn new_include_choice_value(choice: &str, value: &str) -> (r: Self)
        ensures
            r matches Scope::IncludeChoiceValueScope(s) && s.choice@ == choice@ && s.value@ == value@,
    {
        Scope::IncludeChoiceValueScope(IncludeChoiceValue::new(choice, value))
    }

    pub fn new_include_choice(choice: &str) -> (r: Self)
        ensures
            r matches Scope::IncludeChoiceScope(s) && s.choice@ == choice@,
    {
        Scope::IncludeChoiceScope(IncludeChoice::new(choice))
    }

    pub fn new_exclude_choice_value(choice: &str, not_value: &str) -> (r: Self)
        ensures
            r matches Scope::ExcludeChoiceValueScope(s) && s.choice@ == choice@ && s.not_value@ == not_value@,
    {
        Scope::ExcludeChoiceValueScope(ExcludeChoiceValue::new(choice, not_value))
    }

    pub fn new_exclude_choice(not_choice: &str) -> (r: Self)
        ensures
            r matches Scope::ExcludeChoiceScope(s) && s.not_choice@ == not_choice@,
    {
        Scope::ExcludeChoiceScope(ExcludeChoice::new(not_choice))
    }
}

/// The case conversions a filter can apply to a variable's value.
#[derive(Debug, Clone, Copy, PartialEq, Eq)]
pub enum FilterType {
    Camel,
    Cobol,
    Flat,
    Kebab,
    Lower,
    Noop,
    Pascal,
    Snake,
    Title,
    Upper,
}

/// A named filter: the value of a variable, converted by `filter`, is made
/// available under the variable's name joined with `name`.
#[derive(Debug, Clone, PartialEq)]
pub struct VariableFilter {
    pub name: String,
    pub filter: FilterType,
}

impl VariableFilter {
    pub fn new(name: &str, filter: &FilterType) -> (r: Self)
        ensures
            r.name@ == name@,
            r.filter == *filter,
    {
        VariableFilter { name: name.to_string(), filter: *filter }
    }
}

/// A variable of a template repository, whose value is asked of the user.
#[derive(Debug, Clone, PartialEq)]
pub struct TemplateVariable {
    pub variable_name: String,
    pub description: String,
    pub prompt: String,
    pub filters: Vec<VariableFilter>,
    pub default_value: Option<String>,
    pub choices: Vec<Choice>,
    pub scopes: Option<Vec<Scope>>,
}

impl TemplateVariable {
    pub fn new(
        variable_name: &str,
        description: &str,
        prompt: &str,
        filters: &[VariableFilter],
        default_value: Option<&str>,
    ) -> (r: Self)
        ensures
            r.variable_name@ == variable_name@,
            r.description@ == description@,
            r.prompt@ == prompt@,
            r.filters@.len() == filters@.len(),
            forall|i: int| 0 <= i < filters@.len() ==>
                (#[trigger] r.filters@[i]).name@ == filters@[i].name@ && r.filters@[i].filter == filters@[i].filter,
            default_value is None ==> r.default_value is None,
            default_value matches Some(d) ==> r.default_value matches Some(rd) && rd@ == d@,
            r.choices@.len() == 0,
            r.scopes is None,
    {
        let mut fs: Vec<VariableFilter> = Vec::new();
        let n = filters.len();
        let mut i: usize = 0;
        while i < n
            invariant
                n == filters@.len(),
                0 <= i <= n,
                fs@.len() == i,
                forall|j: int| 0 <= j < i ==>
                    (#[trigger] fs@[j]).name@ == filters@[j].name@ && fs@[j].filter == filters@[j].filter,
            decreases n - i,
        {
            fs.push(VariableFilter { name: filters[i].name.clone(), filter: filters[i].filter });
            i = i + 1;
        }
        let default_value = match default_value {
            Some(d) => Some(d.to_string()),
            None => None,
        };
        TemplateVariable {
            variable_name: variable_name.to_string(),
            description: description.to_string(),
            prompt: prompt.to_string(),
            filters: fs,
            default_value,
            choices: Vec::new(),
            scopes: None,
        }
    }

    /// A variable with the given name and scopes and nothing else.
    pub fn with_scopes(variable_name: &str, scopes: Vec<Scope>) -> (r: Self)
        ensures
            r.variable_name@ == variable_name@,
            r.description@ == Seq::<char>::empty(),
            r.prompt@ == Seq::<char>::empty(),
            r.filters@.len() == 0,
            r.default_value is None,
            r.choices@.len() == 0,
            r.scopes == Some(scopes),
    {
        TemplateVariable {
            variable_name: variable_name.to_string(),
            description: String::new(),
            prompt: String::new(),
            filters: Vec::new(),
            default_value: None,
            choices: Vec::new(),
            scopes: Some(scopes),
        }
    }
}

/// The variables a template repository defines, in the order it defines them.
#[derive(Debug, Clone, PartialEq)]
pub struct TemplateVariables {
    pub tokens: Vec<TemplateVariable>,
}

impl TemplateVariables {
    pub fn new(tokens: Vec<TemplateVariable>) -> (r: Self)
        ensures
            r.tokens == tokens,
    {
        TemplateVariables { tokens }
    }
}

/// The name of a variable whose value the user supplied.
#[derive(Debug, Clone, PartialEq)]
pub struct UserVariableKey {
    pub value: String,
}

/// A value the user supplied for a variable.
#[derive(Debug, Clone, PartialEq)]
pub struct UserVariableValue {
    pub value: String,
}

impl View for UserVariableKey {
    type V = Seq<char>;

    open spec fn view(&self) -> Seq<char> {
        self.value@
    }
}

impl View for UserVariableValue {
    type V = Seq<char>;

    open spec fn view(&self) -> Seq<char> {
        self.value@
    }
}

impl UserVariableKey {
    pub fn new(value: String) -> (r: Self)
        ensures
            r@ == value@,
    {
        UserVariableKey { value }
    }
}

impl UserVariableValue {
    pub fn new(value: String) -> (r: Self)
        ensures
            r@ == value@,
    {
        UserVariableValue { value }
    }
}

/// The values a user supplied, by variable name.
pub type UserVariables = StrMap<UserVariableValue>;

} // verus!
