use std::path::Path;
use tempfile::TempDir;
use zat::args::default_user_config_provider::ConfigPathsFound;
use zat::args::{ChoiceMenuStyle, DefaultUserConfigProvider, ProcessTemplatesArgs};
use zat::choice::default_choice_runner::{ChoiceNext, DefaultChoiceRunner};
use zat::choice::SelectedChoices;
use zat::command::process_remote_templates::{ProcessRemoteTemplates, UrlParts};
use zat::command::process_templates::{ProcessAction, ProcessEvent, ProcessNotice, ProcessStep, ProcessTemplates};
use zat::config::{ConfigShellHookStatus, IgnoredFiles, UserConfig, UserConfigX};
use zat::enriched_template_file_processor::EnrichedTemplateFile;
use zat::template_listing::{files_to_write, listed_template_file, ListedEntry};
use zat::default_directory_creator::DefaultDirectoryCreator;
use zat::default_file_writer::DefaultFileWriter;
use zat::error::{ProcessRemoteCommandErrorReason, ZatError};
use zat::shared_models::{DestinationFile, SourceFile};
use zat::str_map::StrMap;
use zat::template_config_validator::{TemplateVariableReview, ValidConfig};
use zat::template_variable_expander::ExpandedValue;
use zat::templates::{Choice, FilterType, TemplateVariable, TemplateVariables, UserVariableValue, VariableFilter};
use zat::token_replacer::{AhoCorasickTokenReplacer, ContentWithTokens, TokenReplacer};

fn config(with_hook: bool) -> UserConfig {
    let args = ProcessTemplatesArgs {
        repository_dir: "/tmp/repo".to_owned(),
        target_dir: "/tmp/out".to_owned(),
        ignores: vec![],
        verbose: false,
        choice_menu_style: Some(ChoiceMenuStyle::Numbered),
    };
    let found = ConfigPathsFound {
        repository_dir_exists: true,
        template_files_dir_exists: true,
        target_dir_exists: false,
        shell_hook_exists: with_hook,
    };
    DefaultUserConfigProvider::get_user_config_from(args, found).unwrap()
}

fn project_replacer() -> AhoCorasickTokenReplacer {
    let mut m = StrMap::new();
    m.insert("$project$".to_owned(), ExpandedValue::new("cool-project".to_owned()));
    AhoCorasickTokenReplacer::new(m)
}

fn project_variables() -> TemplateVariables {
    TemplateVariables::new(vec![TemplateVariable::new(
        "project",
        "Name of project",
        "Please enter your project name",
        &[VariableFilter::new("python", &FilterType::Snake)],
        None,
    )])
}

#[test]
fn creates_supplied_directory() {
    let tmp_directory = TempDir::new().unwrap();
    let working_directory = DestinationFile::new(&tmp_directory.path().display().to_string());
    let destination_directory = working_directory.join("some-cool-directory");
    assert!(!Path::new(&destination_directory.0).exists());
    let dir = DefaultDirectoryCreator::directory_to_create(&destination_directory, &project_replacer());
    assert_eq!(dir, destination_directory.0);
}

#[test]
fn creates_supplied_directory_after_replacing_tokens() {
    let tmp_directory = TempDir::new().unwrap();
    let working_directory = DestinationFile::new(&tmp_directory.path().display().to_string());
    let destination_directory = working_directory.join("some-$project$");
    let destination_directory_with_tokens_replaced = working_directory.join("some-cool-project");
    assert!(!Path::new(&destination_directory_with_tokens_replaced.0).exists());
    let dir = DefaultDirectoryCreator::directory_to_create(&destination_directory, &project_replacer());
    assert_eq!(dir, destination_directory_with_tokens_replaced.0);
    let plain = DefaultDirectoryCreator::directory_to_create(&DestinationFile::new("/out/some-$project$"), &project_replacer());
    assert_eq!(plain, "/out/some-cool-project");
}

#[test]
fn template_content_has_its_tokens_replaced_and_other_content_is_kept() {
    let replacer = project_replacer();
    let template = DefaultFileWriter::output_content(
        &DestinationFile::new("/out/$project$.py.tmpl"),
        "name = '$project$'",
        &replacer,
    );
    assert_eq!(template, "name = 'cool-project'");
    let verbatim = DefaultFileWriter::output_content(&DestinationFile::new("/out/README.md"), "# $project$", &replacer);
    assert_eq!(verbatim, "# $project$");
}

#[test]
fn a_failed_configuration_finishes_with_its_error() {
    let e = ZatError::template_dir_does_not_exist("/tmp/repo");
    match ProcessTemplates::process_next(ProcessStep::Start, ProcessEvent::Configured(Err(e.clone()))) {
        (ProcessStep::Done, ProcessAction::Finish(Err(got), None)) => assert_eq!(got, e),
        other => panic!("unexpected: {:?}", other),
    }
}

#[test]
fn a_configuration_leads_to_reading_the_variables() {
    let c = config(false);
    match ProcessTemplates::process_next(ProcessStep::Start, ProcessEvent::Configured(Ok(c.clone()))) {
        (ProcessStep::ReadingVariables(got), ProcessAction::ReadVariables(d)) => {
            assert_eq!(got, c);
            assert_eq!(d, c.template_dir);
        },
        other => panic!("unexpected: {:?}", other),
    }
}

#[test]
fn failed_variables_finish_with_their_error() {
    let e = ZatError::variable_file_does_not_exist("/tmp/repo/.variables.prompt");
    let r = ProcessTemplates::process_next(ProcessStep::ReadingVariables(config(false)), ProcessEvent::VariablesRead(Err(e.clone())));
    match r {
        (ProcessStep::Done, ProcessAction::Finish(Err(got), None)) => assert_eq!(got, e),
        other => panic!("unexpected: {:?}", other),
    }
}

#[test]
fn choices_drop_the_variables_out_of_scope() {
    let vars = vec![
        TemplateVariable::new("project", "d", "p", &[], None),
    ];
    let chosen = SelectedChoices::new(StrMap::new(), vars);
    let r = ProcessTemplates::process_next(ProcessStep::Choosing(config(false)), ProcessEvent::ChoicesMade(Ok(chosen)));
    match r {
        (ProcessStep::Reviewing(_), ProcessAction::Review(v)) => assert_eq!(v.tokens.len(), 1),
        other => panic!("unexpected: {:?}", other),
    }
}

#[test]
fn rejected_values_write_nothing_and_warn() {
    let r = ProcessTemplates::process_next(
        ProcessStep::Reviewing(config(true)),
        ProcessEvent::Reviewed(TemplateVariableReview::Rejected, project_variables()),
    );
    match r {
        (ProcessStep::Done, ProcessAction::Finish(Ok(()), Some(ProcessNotice::Warning(m)))) => {
            assert_eq!(m, "The user rejected the variables.")
        },
        other => panic!("unexpected: {:?}", other),
    }
}

#[test]
fn accepted_values_are_written_with_their_expansion() {
    let mut values: StrMap<UserVariableValue> = StrMap::new();
    values.insert("project".to_owned(), UserVariableValue::new("My Project".to_owned()));
    let review = TemplateVariableReview::Accepted(ValidConfig::new(values, UserConfigX::new("/tmp/repo", "/tmp/out")));
    let r = ProcessTemplates::process_next(
        ProcessStep::Reviewing(config(false)),
        ProcessEvent::Reviewed(review, project_variables()),
    );
    match r {
        (ProcessStep::Writing(_), ProcessAction::WriteFiles(t)) => {
            let out = t.replace_content_token(ContentWithTokens::new("$project$ / $project_python$"));
            assert_eq!(out.as_ref(), "My Project / my_project");
        },
        other => panic!("unexpected: {:?}", other),
    }
}

#[test]
fn a_failed_write_does_not_run_the_hook() {
    let e = ZatError::target_dir_should_not_exist("/tmp/out");
    let r = ProcessTemplates::process_next(ProcessStep::Writing(config(true)), ProcessEvent::FilesWritten(Err(e.clone())));
    match r {
        (ProcessStep::Done, ProcessAction::Finish(Err(got), None)) => assert_eq!(got, e),
        other => panic!("unexpected: {:?}", other),
    }
}

#[test]
fn a_write_runs_the_hook_with_the_target_directory() {
    let c = config(true);
    let hook = match &c.shell_hook_status {
        ConfigShellHookStatus::RunShellHook(h) => h.clone(),
        ConfigShellHookStatus::NoShellHook => panic!("the configuration has a hook"),
    };
    match ProcessTemplates::process_next(ProcessStep::Writing(c), ProcessEvent::FilesWritten(Ok(()))) {
        (ProcessStep::RunningHook(_), ProcessAction::RunShellHook(h, target)) => {
            assert_eq!(h, hook);
            assert_eq!(target, "/tmp/out");
        },
        other => panic!("unexpected: {:?}", other),
    }
}

#[test]
fn a_write_without_a_hook_finishes_with_the_target() {
    match ProcessTemplates::process_next(ProcessStep::Writing(config(false)), ProcessEvent::FilesWritten(Ok(()))) {
        (ProcessStep::Done, ProcessAction::Finish(Ok(()), Some(ProcessNotice::Info(m)))) => {
            assert_eq!(m, "Extracted template to '/tmp/out'")
        },
        other => panic!("unexpected: {:?}", other),
    }
}

#[test]
fn the_hook_outcome_finishes_the_command() {
    match ProcessTemplates::process_next(ProcessStep::RunningHook(config(true)), ProcessEvent::HookRan(Ok(()))) {
        (ProcessStep::Done, ProcessAction::Finish(Ok(()), Some(ProcessNotice::Info(m)))) => {
            assert_eq!(m, "Extracted template to '/tmp/out'")
        },
        other => panic!("unexpected: {:?}", other),
    }
    let e = ZatError::target_dir_should_not_exist("/tmp/out");
    match ProcessTemplates::process_next(ProcessStep::RunningHook(config(true)), ProcessEvent::HookRan(Err(e.clone()))) {
        (ProcessStep::Done, ProcessAction::Finish(Err(got), None)) => assert_eq!(got, e),
        other => panic!("unexpected: {:?}", other),
    }
}

#[test]
fn events_fit_their_steps() {
    assert!(ProcessTemplates::fits(&ProcessStep::Start, &ProcessEvent::Configured(Ok(config(false)))));
    assert!(!ProcessTemplates::fits(&ProcessStep::Start, &ProcessEvent::HookRan(Ok(()))));
    assert!(!ProcessTemplates::fits(&ProcessStep::Done, &ProcessEvent::HookRan(Ok(()))));
}

#[test]
fn the_checkout_prefix_of_a_parsed_url() {
    let parts = UrlParts {
        serialization: "https://github.com/ssanj/zat".to_owned(),
        host: Some("github.com".to_owned()),
        path: "/ssanj/zat".to_owned(),
    };
    let (prefix, url) = ProcessRemoteTemplates::checkout_prefix_of("https://github.com/ssanj/zat", Ok(parts)).unwrap();
    assert_eq!(prefix, "zat-github.com_ssanj_zat_");
    assert_eq!(url, "https://github.com/ssanj/zat");
    let no_host = UrlParts { serialization: "file:///tmp/r".to_owned(), host: None, path: "/tmp/r".to_owned() };
    match ProcessRemoteTemplates::checkout_prefix_of("file:///tmp/r", Ok(no_host)) {
        Err(ZatError::ProcessRemoteCommandError(ProcessRemoteCommandErrorReason::RemoteRepositoryUrlHostnameIsInvalid(..))) => {},
        other => panic!("unexpected: {:?}", other),
    }
    match ProcessRemoteTemplates::checkout_prefix_of("x", Err("bad".to_owned())) {
        Err(ZatError::ProcessRemoteCommandError(ProcessRemoteCommandErrorReason::RemoteRepositoryUrlIsInvalid(_, x, _))) => {
            assert_eq!(x, "bad")
        },
        other => panic!("unexpected: {:?}", other),
    }
}

#[test]
fn choices_are_asked_in_order_and_stop_at_the_first_failure() {
    let vars = vec![
        TemplateVariable::new("a", "d", "p", &[], None),
        TemplateVariable::new("b", "d", "p", &[], None),
    ];
    assert_eq!(DefaultChoiceRunner::first_choice(&vars), ChoiceNext::Ask(0));
    assert_eq!(DefaultChoiceRunner::first_choice(&vec![]), ChoiceNext::Done);
    let mut selections = vec![];
    let c = Choice::new("one", "the first", "1");
    assert_eq!(DefaultChoiceRunner::after_choice(&vars, &mut selections, Ok(c.clone())), ChoiceNext::Ask(1));
    assert_eq!(selections, vec![c.clone()]);
    let e = ZatError::template_dir_does_not_exist("x");
    assert_eq!(DefaultChoiceRunner::after_choice(&vars, &mut selections, Err(e.clone())), ChoiceNext::Stop(e));
    assert_eq!(selections.len(), 1);
    assert_eq!(DefaultChoiceRunner::after_choice(&vars, &mut selections, Ok(c.clone())), ChoiceNext::Done);
    assert_eq!(selections, vec![c.clone(), c]);
}

#[test]
fn listed_entries_become_files_and_directories_under_the_target() {
    let ignores = IgnoredFiles::from(vec![".git".to_owned()]);
    let target = DestinationFile::new("/out");
    let dir = ListedEntry { name: "src".to_owned(), path: "/repo/template/src".to_owned(), is_dir: true };
    assert_eq!(
        listed_template_file("/repo/template", &dir, &ignores, &target),
        Ok(Some(EnrichedTemplateFile::Dir(DestinationFile::new("/out/src"))))
    );
    let file = ListedEntry { name: "a.py".to_owned(), path: "/repo/template/src/a.py".to_owned(), is_dir: false };
    assert_eq!(
        listed_template_file("/repo/template", &file, &ignores, &target),
        Ok(Some(EnrichedTemplateFile::File(SourceFile::new("/repo/template/src/a.py"), DestinationFile::new("/out/src/a.py"))))
    );
    let git = ListedEntry { name: ".git".to_owned(), path: "/repo/template/.git".to_owned(), is_dir: true };
    assert_eq!(listed_template_file("/repo/template", &git, &ignores, &target), Ok(None));
    let outside = ListedEntry { name: "b".to_owned(), path: "/elsewhere/b".to_owned(), is_dir: false };
    assert!(listed_template_file("/repo/template", &outside, &ignores, &target).is_err());
    assert_eq!(files_to_write(vec![], "/repo/template"), Err(ZatError::no_template_files_to_process("/repo/template")));
    let one = vec![EnrichedTemplateFile::Dir(DestinationFile::new("/out/src"))];
    assert_eq!(files_to_write(one, "/repo/template"), Ok(vec![EnrichedTemplateFile::Dir(DestinationFile::new("/out/src"))]));
}
