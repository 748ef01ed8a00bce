use vstd::prelude::*;
use super::path::path_join;
use super::template_directory::TemplateDir;

verus! {

/// The name of the directory that holds the template files of a repository.
pub const TEMPLATE_FILES_DIR: &'static str = "template";

/// The directory that holds the template files of a repository.
#[derive(Debug, Clone, PartialEq)]
pub struct TemplateFilesDir {
    path: String,
}

impl View for TemplateFilesDir {
    type V = Seq<char>;

    closed spec fn view(&self) -> Seq<char> {
        self.path@
    }
}

impl TemplateFilesDir {
    fn new(path: String) -> (r: Self)
        ensures
            r@ == path@,
    {
        TemplateFilesDir { path }
    }

    /// The path of this directory.
    pub fn path(&self) -> (r: &str)
        ensures
            r@ == self@,
    {
        self.path.as_str()
    }

    /// The template files directory of a repository: `template` inside it.
    pub fn from(template_dir: &TemplateDir) -> (r: Self)
        ensures
            r@ == path_join(template_dir@, "template"@),
    {
        proof {
            reveal_strlit("template");
            assert(TEMPLATE_FILES_DIR@ == "template"@);
        }
        TemplateFilesDir::new(template_dir.join(TEMPLATE_FILES_DIR))
    }

    /// A copy of this directory.
    pub fn duplicate(&self) -> (r: Self)
        ensures
            r@ == self@,
    {
        TemplateFilesDir { path: self.path.clone() }
    }
}

impl Default for TemplateFilesDir {
    fn default() -> (r: Self)
        ensures
            r@ == Seq::<char>::empty(),
    {
        TemplateFilesDir { path: String::new() }
    }
}

} // verus!
