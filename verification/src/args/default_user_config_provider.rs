use vstd::prelude::*;
use super::{ChoiceMenuStyle, ProcessTemplatesArgs};
use crate::config::{ConfigShellHookStatus, Filters, IgnoredFiles, MenuStyle, TargetDir, TemplateDir,
    TemplateFilesDir, UserConfig, SHELL_HOOK_FILE};
use crate::config::ignored_files::strings_view;
use crate::config::path::path_join;
use crate::error::{ZatError, ZatResult};
use crate::error::zat_error::{template_dir_does_not_exist_error, template_files_dir_does_not_exist_error,
    target_dir_should_not_exist_error};

verus! {

/// Builds the configuration of the process command from its arguments and
/// from which of the paths it names exist.
pub struct DefaultUserConfigProvider;

/// The paths whose existence decides the configuration.
#[derive(Debug, Clone, PartialEq)]
pub struct ConfigPaths {
    pub repository_dir: String,
    pub template_files_dir: String,
    pub target_dir: String,
    pub shell_hook_file: String,
}

/// Which of the paths that decide the configuration exist.
#[derive(Debug, Clone, Copy, PartialEq, Eq)]
pub struct ConfigPathsFound {
    pub repository_dir_exists: bool,
    pub template_files_dir_exists: bool,
    pub target_dir_exists: bool,
    pub shell_hook_exists: bool,
}

/// The menu style asked for, numbered when none was.
pub open spec fn menu_style_for(style: Option<ChoiceMenuStyle>) -> MenuStyle {
    match style {
        Some(ChoiceMenuStyle::Selection) => MenuStyle::Selection,
        _ => MenuStyle::Numbered,
    }
}

/// The configuration of the process command, given its arguments and which
/// paths exist: an error when the repository directory or its template files
/// directory is missing, or when the target directory already exists;
/// otherwise the configuration of those directories, ignoring `.git` and the
/// names given, running the repository's shell hook when it has one.
pub open spec fn user_config_result(args: ProcessTemplatesArgs, found: ConfigPathsFound, r: ZatResult<UserConfig>) -> bool {
    let repository = args.repository_dir@;
    let template_files = path_join(repository, "template"@);
    if !found.repository_dir_exists {
        r matches Err(e) && template_dir_does_not_exist_error(e, repository)
    } else if !found.template_files_dir_exists {
        r matches Err(e) && template_files_dir_does_not_exist_error(e, template_files)
    } else if found.target_dir_exists {
        r matches Err(e) && target_dir_should_not_exist_error(e, args.target_dir@)
    } else {
        &&& r matches Ok(c)
        &&& c.template_dir@ == repository
        &&& c.template_files_dir@ == template_files
        &&& c.target_dir.path@ == args.target_dir@
        &&& c.filters.values@.len() == 0
        &&& c.ignores@ == (seq![".git"@] + strings_view(args.ignores@)).to_set()
        &&& c.verbose == args.verbose
        &&& (if found.shell_hook_exists {
            c.shell_hook_status matches ConfigShellHookStatus::RunShellHook(p) && p@ == path_join(repository, SHELL_HOOK_FILE@)
        } else {
            c.shell_hook_status is NoShellHook
        })
        &&& c.menu_style == menu_style_for(args.choice_menu_style)
    }
}

impl DefaultUserConfigProvider {
    pub fn new() -> (r: Self) {
        DefaultUserConfigProvider
    }

    /// The paths whose existence decides the configuration: the repository
    /// directory, its `template` directory, the target directory and the
    /// repository's shell hook file.
    pub fn config_paths(args: &ProcessTemplatesArgs) -> (r: ConfigPaths)
        ensures
            r.repository_dir@ == args.repository_dir@,
            r.template_files_dir@ == path_join(args.repository_dir@, "template"@),
            r.target_dir@ == args.target_dir@,
            r.shell_hook_file@ == path_join(args.repository_dir@, SHELL_HOOK_FILE@),
    {
        let repository_dir = TemplateDir::new(args.repository_dir.as_str());
        let template_files_dir = TemplateFilesDir::from(&repository_dir);
        ConfigPaths {
            repository_dir: args.repository_dir.clone(),
            template_files_dir: template_files_dir.path().to_string(),
            target_dir: args.target_dir.clone(),
            shell_hook_file: repository_dir.shell_hook_file(),
        }
    }

    /// The configuration of the process command, given which of its paths exist.
    pub fn get_user_config_from(args: ProcessTemplatesArgs, found: ConfigPathsFound) -> (r: ZatResult<UserConfig>)
        ensures
            user_config_result(args, found, r),
    {
        let repository_dir = TemplateDir::new(args.repository_dir.as_str());
        let target_dir = TargetDir::new(args.target_dir.as_str());
        let template_files_dir = TemplateFilesDir::from(&repository_dir);
        if !found.repository_dir_exists {
            return Err(ZatError::template_dir_does_not_exist(repository_dir.path()));
        }
        if !found.template_files_dir_exists {
            return Err(ZatError::template_files_dir_does_not_exist(template_files_dir.path()));
        }
        if found.target_dir_exists {
            return Err(ZatError::target_dir_should_not_exist(target_dir.path.as_str()));
        }
        let mut ignores_with_defaults = IgnoredFiles::default_ignores();
        let n = args.ignores.len();
        let mut i: usize = 0;
        let ghost defaults = strings_view(ignores_with_defaults@);
        while i < n
            invariant
                n == args.ignores@.len(),
                0 <= i <= n,
                defaults == seq![".git"@],
                strings_view(ignores_with_defaults@) == defaults + strings_view(args.ignores@).take(i as int),
            decreases n - i,
        {
            let ghost before = ignores_with_defaults@;
            let x = args.ignores[i].clone();
            ignores_with_defaults.push(x);
            proof {
                assert(ignores_with_defaults@ == before.push(x));
                assert(strings_view(ignores_with_defaults@) =~= strings_view(before).push(x@));
                assert(strings_view(args.ignores@).take(i + 1) =~= strings_view(args.ignores@).take(i as int).push(
                    args.ignores@[i as int]@,
                ));
                assert(strings_view(ignores_with_defaults@) =~= defaults + strings_view(args.ignores@).take(i + 1));
            }
            i = i + 1;
        }
        assert(strings_view(args.ignores@).take(n as int) =~= strings_view(args.ignores@));
        let ignores = IgnoredFiles::from(ignores_with_defaults);
        let shell_hook_status = if found.shell_hook_exists {
            ConfigShellHookStatus::RunShellHook(repository_dir.shell_hook_file())
        } else {
            ConfigShellHookStatus::NoShellHook
        };
        let menu_style = match args.choice_menu_style {
            Some(ChoiceMenuStyle::Numbered) => MenuStyle::Numbered,
            Some(ChoiceMenuStyle::Selection) => MenuStyle::Selection,
            None => MenuStyle::Numbered,
        };
        Ok(
            UserConfig {
                template_dir: repository_dir,
                template_files_dir,
                target_dir,
                filters: Filters::default(),
                ignores,
                verbose: args.verbose,
                shell_hook_status,
                menu_style,
            },
        )
    }
}

} // verus!
