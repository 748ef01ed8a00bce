use vstd::prelude::*;
use crate::args::BootstrapProjectArgs;
use crate::config::{TemplateDir, TemplateFilesDir, DOT_VARIABLES_PROMPT};
use crate::config::path::path_join;
use crate::error::{ZatError, ZatResult};
use crate::error::zat_error::{
    bootstrap_repository_dir_should_not_exist_error, could_not_create_bootstrap_file_error,
    could_not_create_bootstrap_repository_error,
};

verus! {

/// Creates a minimal template repository to start from.
pub struct BootstrapProject;

/// A step of creating the bootstrap repository.
#[derive(Debug, Clone, PartialEq)]
pub enum BootstrapAction {
    /// Create the directory at this path, with its parents.
    CreateDirectory(String),
    /// Write the file at this path with this content.
    CreateFile(String, String),
}

/// What comes after a step of creating the bootstrap repository.
#[derive(Debug, PartialEq)]
pub enum BootstrapNext {
    /// Perform the step at this index.
    Perform(usize),
    /// Stop: a step failed with this error.
    Stop(ZatError),
    /// Every step succeeded.
    Finished,
}

/// Whether `e` is the error of the step `action` failing with `cause`.
pub open spec fn step_error_of(action: BootstrapAction, cause: Seq<char>, e: ZatError) -> bool {
    match action {
        BootstrapAction::CreateDirectory(p) => could_not_create_bootstrap_repository_error(e, cause, p@),
        BootstrapAction::CreateFile(p, _) => could_not_create_bootstrap_file_error(e, cause, p@),
    }
}

/// The variable file of the bootstrap repository.
pub const VARIABLE_FILE: &'static str = r#"
    [
      {
        "variable_name": "project",
        "description": "Name of project",
        "prompt": "Please enter your project name",
        "filters": [
          { "name": "__default__",
            "filter": "Noop"
          },
          { "name": "underscore",
            "filter": "Snake"
          }
        ]
      },
      {
        "variable_name": "description",
        "description": "What your project is about",
        "prompt": "Please a description of your project",
        "default_value": "Some project description"
      }
    ]
  "#;

/// The template README of the bootstrap repository.
pub const README_MD_TMPL: &'static str = r#"
      # $project$

      Welcome to your bootstrap project. This is a template file, because it has the `.tmpl` extension. A template file will have any tokens it references, replaced by values supplied by the user when this template is processed. __project__ and __description__  are tokens used in this file. They are defined in the `.variables.zat-prompt` file at the root of this project.

      ## Summary

      $description$
    "#;

/// A file of the bootstrap repository with a token in its name.
pub const PROJECT_CONFIG_CONF: &'static str = r#"
      //The $project__underscore$ token will be replace in this file's name when the template is processed. Note this is not a template file and as such any tokens defined within the file will not be replaced; Tokens in file and directory names will always get replaced irrespectively.
    "#;

/// The name of the template README file.
pub const README_FILE_NAME: &'static str = "README.md.tmpl";

/// The name of the file with a token in its name.
pub const PROJECT_CONFIG_FILE_NAME: &'static str = "$project__underscore$_config.conf";

/// The steps that create the bootstrap repository at `repository`, in order:
/// the repository directory, its variable file, its `template` directory,
/// and the two template files in it.
pub open spec fn bootstrap_steps_match(repository: Seq<char>, steps: Seq<BootstrapAction>) -> bool {
    let files = path_join(repository, "template"@);
    &&& steps.len() == 5
    &&& steps[0] matches BootstrapAction::CreateDirectory(p) && p@ == repository
    &&& steps[1] matches BootstrapAction::CreateFile(p, c) && p@ == path_join(repository, DOT_VARIABLES_PROMPT@) && c@ == VARIABLE_FILE@
    &&& steps[2] matches BootstrapAction::CreateDirectory(p) && p@ == files
    &&& steps[3] matches BootstrapAction::CreateFile(p, c) && p@ == path_join(files, README_FILE_NAME@) && c@ == README_MD_TMPL@
    &&& steps[4] matches BootstrapAction::CreateFile(p, c) && p@ == path_join(files, PROJECT_CONFIG_FILE_NAME@) && c@ == PROJECT_CONFIG_CONF@
}

impl BootstrapProject {
    /// The steps that create a bootstrap repository where the arguments say,
    /// or an error when something already exists there.
    pub fn bootstrap_steps(bootstrap_project_args: &BootstrapProjectArgs, repository_exists: bool) -> (r: ZatResult<Vec<BootstrapAction>>)
        ensures
            repository_exists ==> (r matches Err(e) && bootstrap_repository_dir_should_not_exist_error(e, bootstrap_project_args.repository_dir@)),
            !repository_exists ==> (r matches Ok(steps) && bootstrap_steps_match(bootstrap_project_args.repository_dir@, steps@)),
    {
        if repository_exists {
            return Err(ZatError::bootstrap_repository_dir_should_not_exist(bootstrap_project_args.repository_dir.as_str()));
        }
        let repository_directory = TemplateDir::new(bootstrap_project_args.repository_dir.as_str());
        let template_files_dir = TemplateFilesDir::from(&repository_directory);
        let files = TemplateDir::new(template_files_dir.path());
        let mut steps: Vec<BootstrapAction> = Vec::new();
        steps.push(BootstrapAction::CreateDirectory(repository_directory.path().to_string()));
        steps.push(BootstrapAction::CreateFile(repository_directory.join(DOT_VARIABLES_PROMPT), VARIABLE_FILE.to_string()));
        steps.push(BootstrapAction::CreateDirectory(template_files_dir.path().to_string()));
        steps.push(BootstrapAction::CreateFile(files.join(README_FILE_NAME), README_MD_TMPL.to_string()));
        steps.push(BootstrapAction::CreateFile(files.join(PROJECT_CONFIG_FILE_NAME), PROJECT_CONFIG_CONF.to_string()));
        Ok(steps)
    }

    /// The error reported when a step failed with `cause`: a directory that
    /// could not be created, or a file that could not be written.
    pub fn step_error(action: &BootstrapAction, cause: String) -> (r: ZatError)
        ensures
            step_error_of(*action, cause@, r),
    {
        match action {
            BootstrapAction::CreateDirectory(p) => ZatError::could_not_create_bootstrap_repository(cause, p.as_str()),
            BootstrapAction::CreateFile(p, _) => ZatError::could_not_create_bootstrap_file(cause, p.as_str()),
        }
    }

    /// What to do first with the steps: perform the first one, or finish
    /// at once when there is none.
    pub fn first_step(steps: &Vec<BootstrapAction>) -> (r: BootstrapNext)
        ensures
            steps@.len() > 0 ==> r == BootstrapNext::Perform(0),
            steps@.len() == 0 ==> r == BootstrapNext::Finished,
    {
        if steps.len() > 0 {
            BootstrapNext::Perform(0)
        } else {
            BootstrapNext::Finished
        }
    }

    /// What follows the step at `index`, which ended with `outcome`: when it
    /// failed, stop with its error, so that no later step is performed; when
    /// it succeeded, the next step, or the end after the last one.
    pub fn after_step(steps: &Vec<BootstrapAction>, index: usize, outcome: Result<(), String>) -> (r: BootstrapNext)
        requires
            index < steps@.len(),
        ensures
            match outcome {
                Err(cause) => r matches BootstrapNext::Stop(e) && step_error_of(steps@[index as int], cause@, e),
                Ok(_) => if index + 1 < steps@.len() {
                    r == BootstrapNext::Perform((index + 1) as usize)
                } else {
                    r == BootstrapNext::Finished
                },
            },
    {
        match outcome {
            Err(cause) => BootstrapNext::Stop(BootstrapProject::step_error(&steps[index], cause)),
            Ok(_) => if index < steps.len() - 1 {
                BootstrapNext::Perform(index + 1)
            } else {
                BootstrapNext::Finished
            },
        }
    }

    /// The messages shown once the bootstrap repository at `repository_path` was created.
    pub fn completion_messages(repository_path: &str) -> (r: (String, String))
        ensures
            r.0@ == "Zat created a bootstrap repository at `"@ + repository_path@ + "`."@,
            r.1@ == "Process the bootstrap repository with: `zat process --repository-dir "@ + repository_path@
                + " --target-dir <YOUR_TARGET_DIRECTORY>`"@,
    {
        let mut created = "Zat created a bootstrap repository at `".to_string();
        created.append(repository_path);
        created.append("`.");
        let mut process = "Process the bootstrap repository with: `zat process --repository-dir ".to_string();
        process.append(repository_path);
        process.append(" --target-dir <YOUR_TARGET_DIRECTORY>`");
        (created, process)
    }
}

} // verus!
