use vstd::prelude::*;
use super::path::{join_path, path_join};
use super::template_files_directory::TemplateFilesDir;

verus! {

/// The name of the shell hook file at the root of a template repository.
pub const SHELL_HOOK_FILE: &'static str = "shell-hook.zat-exec";

/// The root directory of a template repository.
#[derive(Debug, Clone, PartialEq)]
pub struct TemplateDir {
    path: String,
}

impl View for TemplateDir {
    type V = Seq<char>;

    closed spec fn view(&self) -> Seq<char> {
        self.path@
    }
}

impl TemplateDir {
    pub fn new(path: &str) -> (r: Self)
        ensures
            r@ == path@,
    {
        TemplateDir { path: path.to_string() }
    }

    /// The path of `other` inside this directory.
    pub fn join(&self, other: &str) -> (r: String)
        ensures
            r@ == path_join(self@, other@),
    {
        join_path(self.path.as_str(), other)
    }

    /// The path of this directory.
    pub fn path(&self) -> (r: &str)
        ensures
            r@ == self@,
    {
        self.path.as_str()
    }

    /// The directory of the template files of this repository.
    pub fn template_files_path(&self) -> (r: TemplateFilesDir)
        ensures
            r@ == path_join(self@, "template"@),
    {
        TemplateFilesDir::from(self)
    }

    /// The path of the shell hook file of this repository.
    pub fn shell_hook_file(&self) -> (r: String)
        ensures
            r@ == path_join(self@, SHELL_HOOK_FILE@),
    {
        self.join(SHELL_HOOK_FILE)
    }

    /// A copy of this directory.
    pub fn duplicate(&self) -> (r: Self)
        ensures
            r@ == self@,
    {
        TemplateDir { path: self.path.clone() }
    }
}

} // verus!
