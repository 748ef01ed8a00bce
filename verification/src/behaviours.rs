//! The stages a user's variable values go through, and the behaviours that
//! move them from one stage to the next.

use vstd::prelude::*;
use crate::str_map::StrMap;
use crate::templates::TemplateVariable;

verus! {

/// Why the variables of a repository could not be loaded.
#[derive(Debug, Clone, PartialEq)]
pub enum VariableSupplierError {
    VariableFileNotFound(String),
    VariableFileCantBeOpened(String),
    CouldNotReadVariableFile(String),
    CouldNotDecodeVariableFile(String),
}

/// How a variable loading error is shown.
pub open spec fn variable_supplier_error_text(e: VariableSupplierError) -> Seq<char> {
    match e {
        VariableSupplierError::VariableFileNotFound(m) => "Variable file could not be found: "@ + m@,
        VariableSupplierError::VariableFileCantBeOpened(m) => "Variable file could not be opened: "@ + m@,
        VariableSupplierError::CouldNotReadVariableFile(m) => "Variable file could not be read: "@ + m@,
        VariableSupplierError::CouldNotDecodeVariableFile(m) => "Variable file could not be decoded as JSON: "@ + m@,
    }
}

impl VariableSupplierError {
    /// This error as shown to the user.
    pub fn to_string(&self) -> (r: String)
        ensures
            r@ == variable_supplier_error_text(*self),
    {
        let (prefix, m) = match self {
            VariableSupplierError::VariableFileNotFound(m) => ("Variable file could not be found: ", m),
            VariableSupplierError::VariableFileCantBeOpened(m) => ("Variable file could not be opened: ", m),
            VariableSupplierError::CouldNotReadVariableFile(m) => ("Variable file could not be read: ", m),
            VariableSupplierError::CouldNotDecodeVariableFile(m) => ("Variable file could not be decoded as JSON: ", m),
        };
        let mut s = prefix.to_string();
        s.append(m.as_str());
        s
    }
}

pub type VariableSupplierResult<T> = Result<T, VariableSupplierError>;

/// Loads the variables a variable file defines.
pub trait VariableSupplier {
    fn load_variables_from_file(variables_file: &str) -> VariableSupplierResult<Vec<TemplateVariable>>;
}

/// Whether the values a user supplied are accepted.
#[derive(Debug, Clone, Copy, PartialEq, Eq)]
pub enum VariableValidity {
    VariablesValid,
    VariablesInvalidStop,
    VariablesInvalidRetry,
}

/// The values a user supplied, by variable name.
#[derive(Debug, PartialEq)]
pub struct UserVariableInputs(pub StrMap<String>);

/// The values a user supplied, once accepted.
#[derive(Debug, PartialEq)]
pub struct ValidatedUserVariableInputs(pub StrMap<String>);

/// The accepted values with their filtered values added.
#[derive(Debug, PartialEq)]
pub struct ValidatedUserVariableInputsFiltersExpanded(pub StrMap<String>);

/// The expanded values under their tokenized keys.
#[derive(Debug, PartialEq)]
pub struct ValidatedUserVariableInputsFiltersExpandedWithTokens(pub StrMap<String>);

/// Go on with the tokenized values, or stop because the user quit.
#[derive(Debug, PartialEq)]
pub enum VariableValidationResponse {
    Continue(ValidatedUserVariableInputsFiltersExpandedWithTokens),
    UserQuit,
}

/// Asks the user for the value of each variable.
pub trait VariableInputs {
    fn get_variable_inputs(variables: &[TemplateVariable]) -> UserVariableInputs;
}

/// Asks the user whether the values supplied are right.
pub trait VariableValidator {
    fn validate_variables(token_map: &UserVariableInputs) -> VariableValidity;
}

/// Adds the filtered values of the accepted values.
pub trait ExpandVariableFilters {
    fn expand_filters(
        variables: &[TemplateVariable],
        user_inputs: &ValidatedUserVariableInputs,
    ) -> ValidatedUserVariableInputsFiltersExpanded;
}

/// Puts the expanded values under tokenized keys.
pub trait AddTokensToVariables {
    fn add_tokens_delimiters(user_input: &ValidatedUserVariableInputsFiltersExpanded) -> ValidatedUserVariableInputsFiltersExpandedWithTokens;
}

} // verus!
