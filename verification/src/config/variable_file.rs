use vstd::prelude::*;
use super::path::path_join;
use super::template_directory::TemplateDir;

verus! {

/// The name of the file at the root of a template repository that defines its variables.
pub const DOT_VARIABLES_PROMPT: &'static str = ".variables.zat-prompt";

/// The file that defines the variables of a template repository.
#[derive(Debug, Clone, PartialEq)]
pub struct VariableFile {
    path: String,
}

impl View for VariableFile {
    type V = Seq<char>;

    closed spec fn view(&self) -> Seq<char> {
        self.path@
    }
}

impl VariableFile {
    /// The variable file of a repository: `.variables.zat-prompt` inside it.
    pub fn from(template_dir: &TemplateDir) -> (r: Self)
        ensures
            r@ == path_join(template_dir@, DOT_VARIABLES_PROMPT@),
    {
        VariableFile { path: template_dir.join(DOT_VARIABLES_PROMPT) }
    }

    /// The path of this file.
    pub fn get_path(&self) -> (r: &str)
        ensures
            r@ == self@,
    {
        self.path.as_str()
    }
}

} // verus!
