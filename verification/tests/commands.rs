use zat::token_replacer::{ContentWithTokens, TokenReplacer};
use zat::templates::{FilterType, TemplateVariable, TemplateVariables, UserVariableValue, VariableFilter};
use zat::str_map::StrMap;
use zat::command::process_templates::ProcessTemplates;
use zat::args::{BootstrapProjectArgs, ChoiceMenuStyle, ProcessRemoteTemplatesArgs};
use zat::command::bootstrap_project::{
    BootstrapNext,
    BootstrapAction, BootstrapProject, PROJECT_CONFIG_CONF, README_MD_TMPL, VARIABLE_FILE,
};
use zat::command::process_remote_templates::ProcessRemoteTemplates;
use zat::config::TemplateDir;
use zat::error::{BootstrapCommandErrorReason, ProcessRemoteCommandErrorReason, ZatError};

#[test]
fn bootstrap_creates_the_repository_then_its_files() {
    let args = BootstrapProjectArgs { repository_dir: "/tmp/boot".to_owned() };
    let steps = BootstrapProject::bootstrap_steps(&args, false).unwrap();
    assert_eq!(
        steps,
        vec![
            BootstrapAction::CreateDirectory("/tmp/boot".to_owned()),
            BootstrapAction::CreateFile("/tmp/boot/.variables.zat-prompt".to_owned(), VARIABLE_FILE.to_owned()),
            BootstrapAction::CreateDirectory("/tmp/boot/template".to_owned()),
            BootstrapAction::CreateFile("/tmp/boot/template/README.md.tmpl".to_owned(), README_MD_TMPL.to_owned()),
            BootstrapAction::CreateFile(
                "/tmp/boot/template/$project__underscore$_config.conf".to_owned(),
                PROJECT_CONFIG_CONF.to_owned()
            ),
        ]
    );
}

#[test]
fn bootstrap_refuses_an_existing_repository() {
    let args = BootstrapProjectArgs { repository_dir: "/tmp/boot".to_owned() };
    match BootstrapProject::bootstrap_steps(&args, true) {
        Err(ZatError::BootstrapCommandError(BootstrapCommandErrorReason::RepositoryDirectoryShouldNotExist(e, _))) => {
            assert!(e.contains("/tmp/boot"))
        },
        other => panic!("unexpected: {:?}", other),
    }
}

#[test]
fn bootstrap_step_errors_name_what_failed() {
    let dir = BootstrapAction::CreateDirectory("/tmp/boot".to_owned());
    let file = BootstrapAction::CreateFile("/tmp/boot/x".to_owned(), "c".to_owned());
    match BootstrapProject::step_error(&dir, "denied".to_owned()) {
        ZatError::BootstrapCommandError(BootstrapCommandErrorReason::CouldNotCreateRepositoryDirectory(e, x, _)) => {
            assert!(e.contains("/tmp/boot"));
            assert_eq!(x, "denied");
        },
        other => panic!("unexpected: {:?}", other),
    }
    match BootstrapProject::step_error(&file, "full".to_owned()) {
        ZatError::BootstrapCommandError(BootstrapCommandErrorReason::CouldNotCreateFile(e, x, _)) => {
            assert!(e.contains("/tmp/boot/x"));
            assert_eq!(x, "full");
        },
        other => panic!("unexpected: {:?}", other),
    }
}

#[test]
fn bootstrap_completion_messages() {
    let (created, process) = BootstrapProject::completion_messages("/tmp/boot");
    assert_eq!(created, "Zat created a bootstrap repository at `/tmp/boot`.");
    assert_eq!(
        process,
        "Process the bootstrap repository with: `zat process --repository-dir /tmp/boot --target-dir <YOUR_TARGET_DIRECTORY>`"
    );
}

#[test]
fn checkout_prefix_of_a_url() {
    let (prefix, url) = ProcessRemoteTemplates::checkout_directory_prefix("https://github.com/ssanj/zat").unwrap();
    assert_eq!(prefix, "zat-github.com_ssanj_zat_");
    assert_eq!(url, "https://github.com/ssanj/zat");
}

#[test]
fn checkout_prefix_of_a_url_with_a_trailing_slash() {
    let (prefix, url) = ProcessRemoteTemplates::checkout_directory_prefix("HTTPS://GitHub.com/a/b/").unwrap();
    assert_eq!(prefix, "zat-github.com_a_b__");
    assert_eq!(url, "https://github.com/a/b/");
}

#[test]
fn checkout_prefix_of_text_that_is_no_url() {
    match ProcessRemoteTemplates::checkout_directory_prefix("not a url") {
        Err(ZatError::ProcessRemoteCommandError(ProcessRemoteCommandErrorReason::RemoteRepositoryUrlIsInvalid(e, x, _))) => {
            assert!(e.contains("not a url"));
            assert_eq!(x, "relative URL without a base");
        },
        other => panic!("unexpected: {:?}", other),
    }
}

#[test]
fn checkout_prefix_of_a_url_without_a_host() {
    match ProcessRemoteTemplates::checkout_directory_prefix("file:///tmp/repo") {
        Err(ZatError::ProcessRemoteCommandError(ProcessRemoteCommandErrorReason::RemoteRepositoryUrlHostnameIsInvalid(e, _))) => {
            assert!(e.contains("file:///tmp/repo"))
        },
        other => panic!("unexpected: {:?}", other),
    }
}

#[test]
fn process_args_of_a_checked_out_repository() {
    let args = ProcessRemoteTemplatesArgs {
        repository_url: "https://github.com/ssanj/zat".to_owned(),
        target_dir: "/tmp/out".to_owned(),
        ignores: vec!["a".to_owned()],
        verbose: true,
        choice_menu_style: Some(ChoiceMenuStyle::Selection),
    };
    let r = ProcessRemoteTemplates::create_process_templates_args(&TemplateDir::new("/tmp/checkout"), args);
    assert_eq!(r.repository_dir, "/tmp/checkout");
    assert_eq!(r.target_dir, "/tmp/out");
    assert_eq!(r.ignores, vec!["a".to_owned()]);
    assert!(r.verbose);
    assert_eq!(r.choice_menu_style, Some(ChoiceMenuStyle::Selection));
}

#[test]
fn clone_command_and_outcome() {
    assert_eq!(
        ProcessRemoteTemplates::git_clone_program("https://x/y", "/tmp/c"),
        "GIT_TERMINAL_PROMPT=0 git clone https://x/y /tmp/c"
    );
    assert_eq!(ProcessRemoteTemplates::clone_outcome(true, Some(0), "https://x/y"), Ok(()));
    match ProcessRemoteTemplates::clone_outcome(false, Some(128), "https://x/y") {
        Err(ZatError::ProcessRemoteCommandError(ProcessRemoteCommandErrorReason::GitCloneStatusError(e, f))) => {
            assert_eq!(e, "Zat could not could not clone remote repository 'https://x/y' because it returned an exit code of '128'.");
            assert!(f.starts_with("Please ensure the following command runs successfully external to Zat: 'GIT_TERMINAL_PROMPT=0 git clone https://x/y'."));
        },
        other => panic!("unexpected: {:?}", other),
    }
    match ProcessRemoteTemplates::clone_outcome(false, None, "u") {
        Err(ZatError::ProcessRemoteCommandError(ProcessRemoteCommandErrorReason::GitCloneStatusError(e, _))) => {
            assert_eq!(e, "Zat could not could not clone remote repository 'u' because it returned an exit code of 'Unknown'.");
        },
        other => panic!("unexpected: {:?}", other),
    }
}

#[test]
fn the_replacer_of_confirmed_values_replaces_their_tokens() {
    let variables = TemplateVariables::new(vec![TemplateVariable::new(
        "project",
        "Name of project",
        "Please enter your project name",
        &[VariableFilter::new("__default__", &FilterType::Noop), VariableFilter::new("underscore", &FilterType::Snake)],
        None,
    )]);
    let mut values = StrMap::new();
    values.insert("project".to_owned(), UserVariableValue::new("My Project".to_owned()));
    let replacer = ProcessTemplates::token_replacer(variables, values);
    let out = replacer.replace_content_token(ContentWithTokens::new("# $project$ in $project__underscore$ $project_underscore$"));
    assert_eq!(out.as_ref(), "# My Project in $project__underscore$ my_project");
}

#[test]
fn bootstrap_steps_run_in_order_and_stop_at_the_first_failure() {
    let args = BootstrapProjectArgs { repository_dir: "/tmp/boot".to_owned() };
    let steps = BootstrapProject::bootstrap_steps(&args, false).unwrap();
    assert_eq!(BootstrapProject::first_step(&steps), BootstrapNext::Perform(0));
    assert_eq!(BootstrapProject::first_step(&vec![]), BootstrapNext::Finished);
    assert_eq!(BootstrapProject::after_step(&steps, 0, Ok(())), BootstrapNext::Perform(1));
    assert_eq!(BootstrapProject::after_step(&steps, 4, Ok(())), BootstrapNext::Finished);
    assert_eq!(
        BootstrapProject::after_step(&steps, 1, Err("full".to_owned())),
        BootstrapNext::Stop(BootstrapProject::step_error(&steps[1], "full".to_owned()))
    );
    match BootstrapProject::after_step(&steps, 0, Err("denied".to_owned())) {
        BootstrapNext::Stop(ZatError::BootstrapCommandError(BootstrapCommandErrorReason::CouldNotCreateRepositoryDirectory(_, x, _))) => {
            assert_eq!(x, "denied")
        },
        other => panic!("unexpected: {:?}", other),
    }
}
