//! The files of a template directory to consider, leaving out those ignored.

use vstd::prelude::*;
use crate::config::{TargetDir, TemplateDir};
use crate::config::ignored_files::strings_view;

verus! {

/// A file, directory or symbolic link of a template directory.
#[derive(Debug, Clone, PartialEq)]
pub enum TemplateFile {
    File(String),
    Dir(String),
    Symlink(String),
}

impl TemplateFile {
    /// A copy of this entry.
    pub fn duplicate(&self) -> (r: Self)
        ensures
            r == *self,
    {
        match self {
            TemplateFile::File(f) => TemplateFile::File(f.clone()),
            TemplateFile::Dir(d) => TemplateFile::Dir(d.clone()),
            TemplateFile::Symlink(s) => TemplateFile::Symlink(s.clone()),
        }
    }
}

/// The files and directories to leave out, by name.
#[derive(Debug, Clone, PartialEq, Default)]
pub struct Ignores {
    pub files: Vec<String>,
    pub directories: Vec<String>,
}

/// Where templates are read from and written to, and what is left out.
#[derive(Debug, Clone, PartialEq)]
pub struct FileTraversalConfig {
    pub template_dir: TemplateDir,
    pub target_dir: TargetDir,
    pub ignores: Ignores,
}

/// Whether an entry is considered: a file or directory is unless its name is
/// ignored; a symbolic link always is.
pub open spec fn not_ignored(ignores: Ignores, f: TemplateFile) -> bool {
    match f {
        TemplateFile::File(name) => !strings_view(ignores.files@).contains(name@),
        TemplateFile::Dir(name) => !strings_view(ignores.directories@).contains(name@),
        TemplateFile::Symlink(_) => true,
    }
}

/// The predicate `not_ignored` for fixed ignores.
pub open spec fn kept_entries(ignores: Ignores) -> spec_fn(TemplateFile) -> bool {
    |f: TemplateFile| not_ignored(ignores, f)
}

/// Returns the entries of a template directory to consider.
pub trait FileTraverser {
    fn traverse_files(&self, config: &FileTraversalConfig) -> Vec<TemplateFile>;
}

/// Traverses a fixed list of entries.
#[derive(Debug, Clone, PartialEq)]
pub struct VecFileTraverser {
    pub files: Vec<TemplateFile>,
}

impl VecFileTraverser {
    pub fn new(files: Vec<TemplateFile>) -> (r: Self)
        ensures
            r.files == files,
    {
        VecFileTraverser { files }
    }
}

fn name_in(names: &Vec<String>, name: &String) -> (r: bool)
    ensures
        r == strings_view(names@).contains(name@),
{
    let n = names.len();
    let mut i: usize = 0;
    while i < n
        invariant
            n == names@.len(),
            0 <= i <= n,
            forall|j: int| 0 <= j < i ==> #[trigger] names@[j]@ != name@,
        decreases n - i,
    {
        if names[i] == *name {
            assert(strings_view(names@)[i as int] == name@);
            return true;
        }
        i = i + 1;
    }
    proof {
        if strings_view(names@).contains(name@) {
            let j = choose|j: int| 0 <= j < strings_view(names@).len() && strings_view(names@)[j] == name@;
            assert(names@[j]@ == name@);
        }
    }
    false
}

impl FileTraverser for VecFileTraverser {
    /// The entries, in order, leaving out the files and directories ignored.
    fn traverse_files(&self, config: &FileTraversalConfig) -> (r: Vec<TemplateFile>)
        ensures
            r@ == self.files@.filter(kept_entries(config.ignores)),
    {
        let ghost p = kept_entries(config.ignores);
        let mut r: Vec<TemplateFile> = Vec::new();
        let n = self.files.len();
        let mut i: usize = 0;
        while i < n
            invariant
                n == self.files@.len(),
                0 <= i <= n,
                p == kept_entries(config.ignores),
                r@ == self.files@.take(i as int).filter(p),
            decreases n - i,
        {
            let f = &self.files[i];
            proof {
                assert(self.files@.take(i + 1) =~= self.files@.take(i as int).push(*f));
                self.files@.take(i as int).lemma_filter_push(*f, p);
            }
            let keep = match f {
                TemplateFile::File(name) => !name_in(&config.ignores.files, name),
                TemplateFile::Dir(name) => !name_in(&config.ignores.directories, name),
                TemplateFile::Symlink(_) => true,
            };
            if keep {
                r.push(f.duplicate());
            }
            i = i + 1;
        }
        assert(self.files@.take(n as int) =~= self.files@);
        r
    }
}

} // verus!
