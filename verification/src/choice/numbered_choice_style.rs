use vstd::prelude::*;
use super::ChoiceError;
use crate::parse::{parse_usize, parsed_usize, trim, trimmed};
use crate::text::{append_decimal, decimal, join, seq_join};

verus! {

/// Asks for a choice by showing a numbered menu and reading the number typed.
pub struct NumberedChoiceStyle;

/// The line of the menu for the item shown as `item`, at index `i`: numbered from 1.
pub open spec fn menu_line(i: nat, item: Seq<char>) -> Seq<char> {
    "  "@ + decimal(i + 1) + " "@ + item
}

/// The lines of the menu, one per item, in order.
pub open spec fn menu_lines(items: Seq<Seq<char>>) -> Seq<Seq<char>> {
    Seq::new(items.len(), |i: int| menu_line(i as nat, items[i]))
}

/// What the number typed selects among `count` items: the index of the item
/// numbered so, an error when the text is not a number, or when the number
/// is not one of the items.
pub open spec fn selection_result(input: Seq<char>, count: nat, r: Result<usize, ChoiceError>) -> bool {
    match parsed_usize(trimmed(input)) {
        None => r matches Err(ChoiceError::NotANumber(s)) && s@ == input,
        Some(n) => if 0 < n <= count {
            r == Ok::<usize, ChoiceError>((n - 1) as usize)
        } else {
            r == Err::<usize, ChoiceError>(ChoiceError::OutOfBounds(n as usize))
        },
    }
}

/// The message shown before the menu is asked again.
pub open spec fn retry_message(e: ChoiceError, count: nat) -> Seq<char> {
    match e {
        ChoiceError::CouldNotReadInput(error) => "Could not read input: "@ + error@,
        ChoiceError::NotANumber(input) => "Selection has to be a number: "@ + trimmed(input@) + " is not a number."@,
        ChoiceError::OutOfBounds(index) => "Selected index: "@ + decimal(index as nat)
            + " is out of bounds. It should be between 1 - "@ + decimal(count),
    }
}

/// What follows an answer to the menu.
#[derive(Debug, PartialEq)]
pub enum MenuAnswer {
    /// The item at this index was chosen.
    Chosen(usize),
    /// The answer chose nothing: show this message and ask again.
    Retry(String),
}

impl NumberedChoiceStyle {
    /// What follows an answer to the menu of `count` items, the answer being
    /// the line read or why none could be read: the item the line selects,
    /// or, when it selects none or nothing was read, the message shown
    /// before the menu is asked again.
    pub fn after_answer(answer: Result<String, String>, count: usize) -> (r: MenuAnswer)
        ensures
            match answer {
                Err(e) => r matches MenuAnswer::Retry(m) && m@ == retry_message(ChoiceError::CouldNotReadInput(e), count as nat),
                Ok(line) => exists|s: Result<usize, ChoiceError>|
                    #[trigger] selection_result(line@, count as nat, s) && match s {
                        Ok(i) => r == MenuAnswer::Chosen(i),
                        Err(err) => r matches MenuAnswer::Retry(m) && m@ == retry_message(err, count as nat),
                    },
            },
    {
        match answer {
            Err(e) => {
                let error = ChoiceError::CouldNotReadInput(e);
                MenuAnswer::Retry(NumberedChoiceStyle::retry_message(&error, count))
            },
            Ok(line) => {
                let s = NumberedChoiceStyle::selection(line.as_str(), count);
                match s {
                    Ok(i) => MenuAnswer::Chosen(i),
                    Err(err) => MenuAnswer::Retry(NumberedChoiceStyle::retry_message(&err, count)),
                }
            },
        }
    }

    /// The menu: one numbered line per item, separated by line breaks.
    pub fn menu(items: &Vec<String>) -> (r: String)
        ensures
            r@ == seq_join(menu_lines(items@.map_values(|s: String| s@)), "\n"@),
    {
        let ghost views = items@.map_values(|s: String| s@);
        let mut lines: Vec<String> = Vec::new();
        let n = items.len();
        let mut i: usize = 0;
        while i < n
            invariant
                n == items@.len(),
                views == items@.map_values(|s: String| s@),
                0 <= i <= n,
                lines@.len() == i,
                forall|j: int| 0 <= j < i ==> #[trigger] lines@[j]@ == menu_line(j as nat, views[j]),
            decreases n - i,
        {
            let mut line = "  ".to_string();
            append_decimal(&mut line, i as u64 + 1);
            line.append(" ");
            line.append(items[i].as_str());
            lines.push(line);
            i = i + 1;
        }
        assert(lines@.map_values(|s: String| s@) =~= menu_lines(views));
        join(&lines, "\n")
    }

    /// What the text typed selects among `count` items.
    pub fn selection(input: &str, count: usize) -> (r: Result<usize, ChoiceError>)
        ensures
            selection_result(input@, count as nat, r),
    {
        match parse_usize(trim(input)) {
            None => Err(ChoiceError::NotANumber(input.to_string())),
            Some(n) => if n > 0 && n <= count {
                Ok(n - 1)
            } else {
                Err(ChoiceError::OutOfBounds(n))
            },
        }
    }

    /// The message shown before the menu of `count` items is asked again.
    pub fn retry_message(error: &ChoiceError, count: usize) -> (r: String)
        ensures
            r@ == retry_message(*error, count as nat),
    {
        match error {
            ChoiceError::CouldNotReadInput(e) => {
                let mut s = "Could not read input: ".to_string();
                s.append(e.as_str());
                s
            },
            ChoiceError::NotANumber(input) => {
                let mut s = "Selection has to be a number: ".to_string();
                s.append(trim(input.as_str()));
                s.append(" is not a number.");
                s
            },
            ChoiceError::OutOfBounds(index) => {
                let mut s = "Selected index: ".to_string();
                append_decimal(&mut s, *index as u64);
                s.append(" is out of bounds. It should be between 1 - ");
                append_decimal(&mut s, count as u64);
                s
            },
        }
    }
}

} // verus!
