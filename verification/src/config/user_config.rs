use vstd::prelude::*;
use super::{ConfigShellHookStatus, Filters, IgnoredFiles, TargetDir, TemplateDir, TemplateFilesDir};
use super::path::path_join;
use crate::text::seq_join;

verus! {

/// How a choice among options is asked of the user.
#[derive(Debug, Clone, Copy, PartialEq, Eq)]
pub enum MenuStyle {
    Numbered,
    Selection,
}

/// Everything a run of the process command needs to know.
#[derive(Debug, Clone, PartialEq)]
pub struct UserConfig {
    pub template_dir: TemplateDir,
    pub template_files_dir: TemplateFilesDir,
    pub target_dir: TargetDir,
    pub filters: Filters,
    pub ignores: IgnoredFiles,
    pub verbose: bool,
    pub shell_hook_status: ConfigShellHookStatus,
    pub menu_style: MenuStyle,
}

/// The text of a boolean.
pub open spec fn bool_text(b: bool) -> Seq<char> {
    if b { "true"@ } else { "false"@ }
}

/// The lines that describe a configuration, in order.
pub open spec fn config_lines(c: UserConfig) -> Seq<Seq<char>> {
    seq![
        "Template directory: "@ + c.template_dir@,
        "Template files directory: "@ + c.template_files_dir@,
        "Target directory: "@ + c.target_dir.path@,
        "Filters used: "@ + seq_join(c.filters.values@.map_values(|s: String| s@), ","@),
        "Ignored files and folders: "@ + seq_join(c.ignores.names(), ","@),
        "Verbose: "@ + bool_text(c.verbose),
        "Shell hook file: "@ + match c.shell_hook_status {
            ConfigShellHookStatus::NoShellHook => "No shell hook found"@,
            ConfigShellHookStatus::RunShellHook(_) => "Shell hook found"@,
        },
    ]
}

fn prefixed(prefix: &str, text: &str) -> (r: String)
    ensures
        r@ == prefix@ + text@,
{
    let mut r = prefix.to_string();
    r.append(text);
    r
}

impl UserConfig {
    /// A configuration for the given repository and target directories, with
    /// the defaults for everything else.
    pub fn new(source_dir: &str, destination_dir: &str) -> (r: Self)
        ensures
            r.template_dir@ == source_dir@,
            r.template_files_dir@ == path_join(source_dir@, "template"@),
            r.target_dir.path@ == destination_dir@,
            r.filters.values@.len() == 0,
            r.ignores@ == set![".git"@],
            !r.verbose,
            r.shell_hook_status is NoShellHook,
            r.menu_style == MenuStyle::Numbered,
    {
        let template_dir = TemplateDir::new(source_dir);
        let template_files_dir = TemplateFilesDir::from(&template_dir);
        UserConfig {
            template_dir,
            template_files_dir,
            target_dir: TargetDir::new(destination_dir),
            filters: Filters::default(),
            ignores: IgnoredFiles::default(),
            verbose: false,
            shell_hook_status: ConfigShellHookStatus::default(),
            menu_style: MenuStyle::Numbered,
        }
    }

    /// The lines that describe this configuration.
    pub fn lines(&self) -> (r: Vec<String>)
        ensures
            r@.map_values(|s: String| s@) == config_lines(*self),
    {
        let mut r: Vec<String> = Vec::new();
        r.push(prefixed("Template directory: ", self.template_dir.path()));
        r.push(prefixed("Template files directory: ", self.template_files_dir.path()));
        r.push(prefixed("Target directory: ", self.target_dir.path.as_str()));
        let filters = self.filters.to_string();
        r.push(prefixed("Filters used: ", filters.as_str()));
        let ignores = self.ignores.to_string();
        r.push(prefixed("Ignored files and folders: ", ignores.as_str()));
        let verbose = if self.verbose { "true" } else { "false" };
        r.push(prefixed("Verbose: ", verbose));
        let hook = match self.shell_hook_status {
            ConfigShellHookStatus::NoShellHook => "No shell hook found",
            ConfigShellHookStatus::RunShellHook(_) => "Shell hook found",
        };
        r.push(prefixed("Shell hook file: ", hook));
        assert(r@.map_values(|s: String| s@) =~= config_lines(*self));
        r
    }
}

} // verus!
