use std::collections::HashSet;
use std::path::Path;
use tempfile::TempDir;
use zat::args::default_user_config_provider::ConfigPathsFound;
use zat::args::{ChoiceMenuStyle, DefaultUserConfigProvider, ProcessTemplatesArgs};
use zat::config::{
    ConfigShellHookStatus, Filters, IgnoredFiles, MenuStyle, TemplateDir, TemplateFilesDir, UserConfig, SHELL_HOOK_FILE,
    TEMPLATE_FILES_DIR,
};
use zat::error::{ProcessCommandErrorReason, UserConfigErrorReason, ZatError, ZatResult};

/// A temporary directory holding a directory with the given name.
fn temp_dir_with(name: &str) -> TempDir {
    let dir = TempDir::new().unwrap();
    let inner = tempfile::Builder::new().rand_bytes(0).prefix(name).tempdir_in(dir.path()).unwrap();
    let _ = inner.into_path();
    dir
}

/// Builds the configuration as the command does: from which of its paths exist.
fn get_user_config_fallable(args: ProcessTemplatesArgs) -> ZatResult<UserConfig> {
    let paths = DefaultUserConfigProvider::config_paths(&args);
    let found = ConfigPathsFound {
        repository_dir_exists: Path::new(&paths.repository_dir).exists(),
        template_files_dir_exists: Path::new(&paths.template_files_dir).exists(),
        target_dir_exists: Path::new(&paths.target_dir).exists(),
        shell_hook_exists: Path::new(&paths.shell_hook_file).exists(),
    };
    DefaultUserConfigProvider::get_user_config_from(args, found)
}

fn get_user_config(args: ProcessTemplatesArgs) -> UserConfig {
    get_user_config_fallable(args).expect("Could not load user config")
}

fn args(repository_dir: &str, target_dir: &str, ignores: Vec<String>) -> ProcessTemplatesArgs {
    ProcessTemplatesArgs {
        repository_dir: repository_dir.to_owned(),
        target_dir: target_dir.to_owned(),
        ignores,
        verbose: false,
        choice_menu_style: Some(ChoiceMenuStyle::Numbered),
    }
}

#[test]
fn config_is_loaded() {
    let target_dir = TempDir::new().unwrap();
    let template_dir = temp_dir_with(TEMPLATE_FILES_DIR);

    let template_dir_path = template_dir.path().display().to_string();
    let target_dir_path = target_dir.path().display().to_string();

    let ignores = vec!["blah".to_owned(), "blee/".to_owned(), ".blue".to_owned()];

    drop(target_dir);

    let config = get_user_config(args(&template_dir_path, &target_dir_path, ignores));

    let expected_repository_dir = TemplateDir::new(&template_dir_path);
    let expected_template_files_dir = TemplateFilesDir::from(&expected_repository_dir);
    let expected_filters = Filters::default();
    let mut expected_ignores = vec!["blah".to_owned(), "blee/".to_owned(), ".blue".to_owned()];
    expected_ignores.append(&mut IgnoredFiles::default_ignores());

    assert_eq!(config.template_dir, expected_repository_dir);
    assert_eq!(config.template_files_dir, expected_template_files_dir);
    assert_eq!(&config.target_dir.path, &target_dir_path);
    assert_eq!(config.filters, expected_filters);

    let actual_ignores_set: HashSet<String> = config.ignores.ignores().iter().cloned().collect();
    let expected_ignores_set: HashSet<String> = HashSet::from_iter(expected_ignores);

    assert_eq!(actual_ignores_set, expected_ignores_set)
}

#[test]
fn config_uses_default_ignores_if_not_supplied() {
    let target_dir = TempDir::new().unwrap();
    let repository_dir = temp_dir_with(TEMPLATE_FILES_DIR);

    let repository_dir_path = repository_dir.path().display().to_string();
    let target_dir_path = target_dir.path().display().to_string();

    drop(target_dir);

    let config = get_user_config(args(&repository_dir_path, &target_dir_path, vec![]));

    let expected_repository_dir = TemplateDir::new(&repository_dir_path);
    let expected_template_files_dir = TemplateFilesDir::from(&expected_repository_dir);
    let expected_filters = Filters::default();
    let expected_ignores = IgnoredFiles::default_ignores();

    assert_eq!(config.template_dir, expected_repository_dir);
    assert_eq!(config.template_files_dir, expected_template_files_dir);
    assert_eq!(&config.target_dir.path, &target_dir_path);
    assert_eq!(config.filters, expected_filters);

    let actual_ignores_set: HashSet<String> = config.ignores.ignores().iter().cloned().collect();
    let expected_ignores_set: HashSet<String> = HashSet::from_iter(expected_ignores);

    assert_eq!(actual_ignores_set, expected_ignores_set)
}

#[test]
fn config_fails_to_load_if_template_dir_does_not_exist() {
    let target_dir = TempDir::new().unwrap();
    let repository_dir = TempDir::new().unwrap();

    let repository_dir_path = repository_dir.path().display().to_string();
    let target_dir_path = target_dir.path().display().to_string();

    drop(target_dir);
    drop(repository_dir);

    match get_user_config_fallable(args(&repository_dir_path, &target_dir_path, vec![])) {
        Ok(_) => panic!("get_config should fail if the repository directory does not exist"),
        Err(error) => {
            let expected_error = format!("The Zat repository directory '{}' does not exist. It should exist so Zat can read the template configuration.", repository_dir_path);
            let expected_fix = format!("Please create the Zat repository directory '{}' with the Zat folder structure. See `zat --help` for more.", repository_dir_path);
            assert_eq!(
                error,
                ZatError::ProcessCommandError(ProcessCommandErrorReason::UserConfigError(
                    UserConfigErrorReason::RepositoryDirDoesNotExist(expected_error, expected_fix)
                ))
            )
        }
    }
}

#[test]
fn config_fails_to_load_if_template_files_dir_does_not_exist() {
    let target_dir = TempDir::new().unwrap();
    let repository_dir = TempDir::new().unwrap();

    let repository_dir_path = repository_dir.path().display().to_string();
    let target_dir_path = target_dir.path().display().to_string();

    match get_user_config_fallable(args(&repository_dir_path, &target_dir_path, vec![])) {
        Ok(_) => panic!("get_config should fail if the template files directory does not exist"),
        Err(error) => {
            let expected_error = format!("The Zat template files directory '{}/template' does not exist. It should exist so Zat can read the template files.", repository_dir_path);
            let expected_fix = format!("Please create the Zat template files directory '{}/template' with the necessary template files. See `zat --help` for more details.", repository_dir_path);
            assert_eq!(
                error,
                ZatError::ProcessCommandError(ProcessCommandErrorReason::UserConfigError(
                    UserConfigErrorReason::TemplateFilesDirDoesNotExist(expected_error, expected_fix)
                ))
            )
        }
    }

    drop(target_dir);
    drop(repository_dir);
}

#[test]
fn config_fails_to_load_if_target_dir_exists() {
    let target_dir = TempDir::new().unwrap();
    let repository_dir = temp_dir_with(TEMPLATE_FILES_DIR);

    let template_dir_path = repository_dir.path().display().to_string();
    let target_dir_path = target_dir.path().display().to_string();

    match get_user_config_fallable(args(&template_dir_path, &target_dir_path, vec![])) {
        Ok(_) => panic!("get_config should fail if the target directory does exist"),
        Err(error) => {
            let expected_error = format!("The target directory '{}' should not exist. It will be created when Zat processes the template files.", target_dir_path);
            let expected_fix = "Please supply an empty directory for the target.".to_owned();
            assert_eq!(
                error,
                ZatError::ProcessCommandError(ProcessCommandErrorReason::UserConfigError(
                    UserConfigErrorReason::TargetDirectoryShouldNotExist(expected_error, expected_fix)
                ))
            )
        }
    }
}

#[test]
fn shell_hook_not_found() {
    let target_dir = TempDir::new().unwrap();
    let repository_dir = temp_dir_with(TEMPLATE_FILES_DIR);
    let repository_dir_path = repository_dir.path().display().to_string();
    let target_dir_path = target_dir.path().display().to_string();
    drop(target_dir);

    let config = get_user_config(args(&repository_dir_path, &target_dir_path, vec![]));

    assert_eq!(config.shell_hook_status, ConfigShellHookStatus::NoShellHook);
}

#[test]
fn shell_hook_found() {
    let target_dir = TempDir::new().unwrap();
    let repository_dir = temp_dir_with(TEMPLATE_FILES_DIR);
    let repository_dir_path = repository_dir.path().display().to_string();
    let target_dir_path = target_dir.path().display().to_string();
    drop(target_dir);
    let hook = tempfile::Builder::new().rand_bytes(0).prefix(SHELL_HOOK_FILE).tempfile_in(repository_dir.path()).unwrap();

    let config = get_user_config(args(&repository_dir_path, &target_dir_path, vec![]));

    assert_eq!(
        config.shell_hook_status,
        ConfigShellHookStatus::RunShellHook(format!("{}/{}", repository_dir_path, SHELL_HOOK_FILE))
    );
    drop(hook);
}

#[test]
fn selection_menu_is_used_when_asked_for() {
    let found = ConfigPathsFound {
        repository_dir_exists: true,
        template_files_dir_exists: true,
        target_dir_exists: false,
        shell_hook_exists: false,
    };
    let mut a = args("repo", "target", vec![]);
    a.choice_menu_style = Some(ChoiceMenuStyle::Selection);
    let config = DefaultUserConfigProvider::get_user_config_from(a, found).unwrap();
    assert_eq!(config.menu_style, MenuStyle::Selection);
    assert_eq!(config.template_files_dir.path(), "repo/template");

    let mut a = args("repo", "target", vec![]);
    a.choice_menu_style = None;
    let config = DefaultUserConfigProvider::get_user_config_from(a, found).unwrap();
    assert_eq!(config.menu_style, MenuStyle::Numbered);
}
