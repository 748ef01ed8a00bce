use vstd::prelude::*;
use super::{Filters, IgnoredFiles, TargetDir, TemplateDir};

verus! {

/// The directories of a run, with the filters and ignored files.
#[derive(Debug, Clone, PartialEq)]
pub struct UserConfigX {
    pub template_dir: TemplateDir,
    pub target_dir: TargetDir,
    pub filters: Filters,
    pub ignores: IgnoredFiles,
}

impl UserConfigX {
    /// A configuration for the given repository and target directories, with
    /// no filters, ignoring the variable prompt file and git's directory.
    pub fn new(source_dir: &str, destination_dir: &str) -> (r: Self)
        ensures
            r.template_dir@ == source_dir@,
            r.target_dir.path@ == destination_dir@,
            r.filters.values@.len() == 0,
            r.ignores@ == set![".variables.prompt"@, ".git"@],
    {
        let mut names: Vec<String> = Vec::new();
        names.push(IgnoredFiles::DOT_VARIABLES_DOT_PROMPT.to_string());
        names.push(IgnoredFiles::DOT_GIT.to_string());
        let ignores = IgnoredFiles::from(names);
        proof {
            let v = crate::config::ignored_files::strings_view(names@);
            assert(v =~= seq![".variables.prompt"@, ".git"@]);
            assert(v.to_set() =~= set![".variables.prompt"@, ".git"@]) by {
                assert(v[0] == ".variables.prompt"@);
                assert(v[1] == ".git"@);
            }
        }
        UserConfigX {
            template_dir: TemplateDir::new(source_dir),
            target_dir: TargetDir::new(destination_dir),
            filters: Filters::default(),
            ignores,
        }
    }
}

} // verus!
