//! The variables a template repository defines in its variable file.

use vstd::prelude::*;
use crate::config::UserConfigX;
use crate::shared_models::{ZatErrorX, ZatResultX};
use crate::templates::TemplateVariable;

verus! {

/// The variables a template repository defines.
#[derive(Debug, PartialEq)]
pub struct TemplateTokens {
    pub tokens: Vec<TemplateVariable>,
}

/// Reads the variables of the template repository a configuration names.
pub trait TemplateTokenProvider {
    fn get_tokens(&self, user_config: UserConfigX) -> ZatResultX<TemplateTokens>;
}

/// What became of reading the variable file of a template repository.
#[derive(Debug, PartialEq)]
pub enum VariableFileContent {
    /// There is no variable file.
    Missing,
    /// The file could not be opened or read, for this reason.
    Unreadable(String),
    /// The file's text is not a list of variables, for this reason.
    Undecodable(String),
    /// The variables the file lists.
    Decoded(Vec<TemplateVariable>),
}

/// Reads the variables from the variable file at the root of the template repository.
pub struct DefaultTemplateTokenProvider;

impl DefaultTemplateTokenProvider {
    pub fn new() -> Self {
        DefaultTemplateTokenProvider
    }

    /// The variables, given what reading the variable file gave: none when
    /// there is no such file; the variables it lists; or a read or decode
    /// error with its reason.
    pub fn tokens_from(content: VariableFileContent) -> (r: ZatResultX<TemplateTokens>)
        ensures
            match content {
                VariableFileContent::Missing => r matches Ok(t) && t.tokens@.len() == 0,
                VariableFileContent::Unreadable(e) => r == Err::<TemplateTokens, ZatErrorX>(ZatErrorX::VariableReadError(e)),
                VariableFileContent::Undecodable(e) => r == Err::<TemplateTokens, ZatErrorX>(ZatErrorX::VariableDecodeError(e)),
                VariableFileContent::Decoded(v) => r matches Ok(t) && t.tokens@ == v@,
            },
    {
        match content {
            VariableFileContent::Missing => Ok(TemplateTokens { tokens: Vec::new() }),
            VariableFileContent::Unreadable(e) => Err(ZatErrorX::VariableReadError(e)),
            VariableFileContent::Undecodable(e) => Err(ZatErrorX::VariableDecodeError(e)),
            VariableFileContent::Decoded(v) => Ok(TemplateTokens { tokens: v }),
        }
    }
}

} // verus!
