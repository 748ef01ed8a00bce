use vstd::prelude::*;
use crate::text::{append_decimal, decimal};

verus! {

/// Why a choice could not be read from the user.
#[derive(Debug, Clone, PartialEq)]
pub enum ChoiceError {
    CouldNotReadInput(String),
    NotANumber(String),
    OutOfBounds(usize),
}

/// How a choice error is shown.
pub open spec fn choice_error_text(e: ChoiceError) -> Seq<char> {
    match e {
        ChoiceError::CouldNotReadInput(input) => "Could not read input: "@ + input@,
        ChoiceError::NotANumber(input) => "Expected a number for choice, but got: "@ + input@,
        ChoiceError::OutOfBounds(number) => "Invalid index supplied: "@ + decimal(number as nat),
    }
}

impl ChoiceError {
    /// This error as shown to the user.
    pub fn to_string(&self) -> (r: String)
        ensures
            r@ == choice_error_text(*self),
    {
        match self {
            ChoiceError::CouldNotReadInput(input) => {
                let mut s = "Could not read input: ".to_string();
                s.append(input.as_str());
                s
            },
            ChoiceError::NotANumber(input) => {
                let mut s = "Expected a number for choice, but got: ".to_string();
                s.append(input.as_str());
                s
            },
            ChoiceError::OutOfBounds(number) => {
                let mut s = "Invalid index supplied: ".to_string();
                append_decimal(&mut s, *number as u64);
                s
            },
        }
    }
}

} // verus!
