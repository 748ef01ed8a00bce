//! The source and destination of template files, and the errors of writing them.

use vstd::prelude::*;
use crate::config::path::{join_path, path_join};

verus! {

/// An error of reading variables or writing output files.
#[derive(Debug, PartialEq)]
pub enum ZatErrorX {
    VariableReadError(String),
    VariableDecodeError(String),
    WritingFileError(String),
    MultipleErrors(Vec<ZatErrorX>),
}

pub type ZatResultX<T> = Result<T, ZatErrorX>;

/// A template file to read.
#[derive(Debug, Clone, PartialEq)]
pub struct SourceFile(pub String);

/// A file or directory to write.
#[derive(Debug, Clone, PartialEq)]
pub struct DestinationFile(pub String);

impl SourceFile {
    pub fn new(path: &str) -> (r: Self)
        ensures
            r.0@ == path@,
    {
        SourceFile(path.to_string())
    }
}

impl DestinationFile {
    pub fn new(path: &str) -> (r: Self)
        ensures
            r.0@ == path@,
    {
        DestinationFile(path.to_string())
    }

    /// The destination `child` inside this one.
    pub fn join(&self, child: &str) -> (r: DestinationFile)
        ensures
            r.0@ == path_join(self.0@, child@),
    {
        DestinationFile(join_path(self.0.as_str(), child))
    }

    /// The path of this destination with its tokens replaced: what the
    /// replacer gives for the path.
    pub fn map<R: StringTokenReplacer>(&self, replacer: &R) -> (r: String)
        ensures
            replacer.replaces(self.0@, r@),
    {
        replacer.replace(self.0.as_str())
    }
}

/// Replaces the tokens in a piece of text.
pub trait StringTokenReplacer {
    /// Whether `output` is what this replacer gives for `input`. A replacer
    /// that does not describe itself promises nothing of its output.
    open spec fn replaces(&self, input: Seq<char>, output: Seq<char>) -> bool {
        true
    }

    fn replace(&self, input: &str) -> (r: String)
        ensures
            self.replaces(input@, r@),
    ;
}

/// Leaves text as it is.
pub struct EchoingStringTokenReplacer;

impl StringTokenReplacer for EchoingStringTokenReplacer {
    /// The text as it is.
    open spec fn replaces(&self, input: Seq<char>, output: Seq<char>) -> bool {
        output == input
    }

    fn replace(&self, input: &str) -> (r: String)
        ensures
            r@ == input@,
    {
        input.to_string()
    }
}

} // verus!
