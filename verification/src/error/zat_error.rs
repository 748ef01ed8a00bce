use vstd::prelude::*;
use super::{ErrorFormat, UserConfigErrorReason, VariableFileErrorReason, TemplateProcessingErrorReason,
    ReasonFileErrorReason, PostProcessingErrorReason, BootstrapCommandErrorReason,
    ProcessRemoteCommandErrorReason, PluginErrorReason, GenericErrorReason};
use super::user_config_error_reason::user_config_error_format;
use super::variable_file_error_reason::variable_file_error_format;
use super::template_processing_error_reason::template_processing_error_format;
use super::post_processing_error_reason::post_processing_error_format;
use super::bootstrap_command_error_reason::bootstrap_command_error_format;
use super::process_remote_command_error_reason::process_remote_command_error_format;
use super::plugin_error_reason::plugin_error_format;
use super::generic_error_reason::generic_error_format;
use crate::text::{i32_to_string, int_decimal, paint_yellow, yellow};

verus! {

pub type ZatResult<A> = Result<A, ZatError>;

pub type ZatAction = Result<(), ZatError>;

/// An error of one of the commands, or of a plugin.
#[derive(Debug, PartialEq, Clone)]
pub enum ZatError {
    ProcessCommandError(ProcessCommandErrorReason),
    BootstrapCommandError(BootstrapCommandErrorReason),
    ProcessRemoteCommandError(ProcessRemoteCommandErrorReason),
    PluginError(PluginErrorReason),
    GenericError(GenericErrorReason),
}

/// An error of the command that processes a template repository.
#[derive(Debug, PartialEq, Clone)]
pub enum ProcessCommandErrorReason {
    UserConfigError(UserConfigErrorReason),
    VariableFileError(VariableFileErrorReason),
    TemplateProcessingError(TemplateProcessingErrorReason),
    PostProcessingError(PostProcessingErrorReason),
}

/// The heading an error is shown under.
pub open spec fn error_heading(e: ZatError) -> Seq<char> {
    match e {
        ZatError::ProcessCommandError(p) => match p {
            ProcessCommandErrorReason::UserConfigError(_) => "Got a configuration error"@,
            ProcessCommandErrorReason::VariableFileError(_) => "Got an error processing variables"@,
            ProcessCommandErrorReason::TemplateProcessingError(_) => "There was an error running the template"@,
            ProcessCommandErrorReason::PostProcessingError(_) => "There was an error running the post processor"@,
        },
        ZatError::BootstrapCommandError(_) => "There was an error running the bootstrap process"@,
        ZatError::ProcessRemoteCommandError(_) => "There was an error running a remote processing command"@,
        ZatError::PluginError(_) => "There was an error running a plugin"@,
        ZatError::GenericError(_) => "There was an unexpected error"@,
    }
}

/// How an error is laid out: its reason, exception and remediation.
pub open spec fn error_format(e: ZatError) -> (Seq<char>, Option<Seq<char>>, Option<Seq<char>>) {
    match e {
        ZatError::ProcessCommandError(p) => match p {
            ProcessCommandErrorReason::UserConfigError(r) => user_config_error_format(r),
            ProcessCommandErrorReason::VariableFileError(r) => variable_file_error_format(r),
            ProcessCommandErrorReason::TemplateProcessingError(r) => template_processing_error_format(r),
            ProcessCommandErrorReason::PostProcessingError(r) => post_processing_error_format(r),
        },
        ZatError::BootstrapCommandError(r) => bootstrap_command_error_format(r),
        ZatError::ProcessRemoteCommandError(r) => process_remote_command_error_format(r),
        ZatError::PluginError(r) => plugin_error_format(r),
        ZatError::GenericError(r) => generic_error_format(r),
    }
}

/// A heading: its text in yellow, then a colon.
pub open spec fn heading(text: Seq<char>) -> Seq<char> {
    yellow(text) + ":"@
}

/// A section of a shown error: two blank-line breaks, the indented heading,
/// a line break, and the content indented further.
pub open spec fn section(title: Seq<char>, content: Seq<char>) -> Seq<char> {
    "\n\n"@ + "  "@ + heading(title) + "\n"@ + "    "@ + content
}

/// An optional section, empty when there is no content.
pub open spec fn optional_section(title: Seq<char>, content: Option<Seq<char>>) -> Seq<char> {
    match content {
        Some(c) => section(title, c),
        None => Seq::empty(),
    }
}

/// How an error with a given heading and layout is shown: the reason under
/// the heading, then the exception and the possible fix when there are any.
pub open spec fn formatted_error(error_type: Seq<char>, f: (Seq<char>, Option<Seq<char>>, Option<Seq<char>>)) -> Seq<char> {
    section(error_type, f.0) + optional_section("Exception"@, f.1) + optional_section("Possible fix"@, f.2)
}

/// Whether `e` is the error: the repository directory at `path` does not exist.
pub open spec fn template_dir_does_not_exist_error(e: ZatError, path: Seq<char>) -> bool {
    &&& e matches ZatError::ProcessCommandError(ProcessCommandErrorReason::UserConfigError(UserConfigErrorReason::RepositoryDirDoesNotExist(f0, f1)))
    &&& f0@ == "The Zat repository directory '"@ + path + "' does not exist. It should exist so Zat can read the template configuration."@
    &&& f1@ == "Please create the Zat repository directory '"@ + path + "' with the Zat folder structure. See `zat --help` for more."@
}

/// Whether `e` is the error: the template files directory at `path` does not exist.
pub open spec fn template_files_dir_does_not_exist_error(e: ZatError, path: Seq<char>) -> bool {
    &&& e matches ZatError::ProcessCommandError(ProcessCommandErrorReason::UserConfigError(UserConfigErrorReason::TemplateFilesDirDoesNotExist(f0, f1)))
    &&& f0@ == "The Zat template files directory '"@ + path + "' does not exist. It should exist so Zat can read the template files."@
    &&& f1@ == "Please create the Zat template files directory '"@ + path + "' with the necessary template files. See `zat --help` for more details."@
}

/// Whether `e` is the error: the target directory at `path` already exists.
pub open spec fn target_dir_should_not_exist_error(e: ZatError, path: Seq<char>) -> bool {
    &&& e matches ZatError::ProcessCommandError(ProcessCommandErrorReason::UserConfigError(UserConfigErrorReason::TargetDirectoryShouldNotExist(f0, f1)))
    &&& f0@ == "The target directory '"@ + path + "' should not exist. It will be created when Zat processes the template files."@
    &&& f1@ == "Please supply an empty directory for the target."@
}

/// Whether `e` is the error: the variable file at `path` does not exist.
pub open spec fn variable_file_does_not_exist_error(e: ZatError, path: Seq<char>) -> bool {
    &&& e matches ZatError::ProcessCommandError(ProcessCommandErrorReason::VariableFileError(VariableFileErrorReason::VariableFileNotFound(f0, f1)))
    &&& f0@ == "Variable file '"@ + path + "' does not exist. Zat uses this file to retrieve tokens that will be replaced when rendering the templates."@
    &&& f1@ == "Please create the variable file '"@ + path + "' with the required tokens. See `zat --help` for more details."@
}

/// Whether `e` is the error: the variable file at `path` defines no variable.
pub open spec fn variable_file_has_no_variables_defined_error(e: ZatError, path: Seq<char>) -> bool {
    &&& e matches ZatError::ProcessCommandError(ProcessCommandErrorReason::VariableFileError(VariableFileErrorReason::VariableFileHasNoVariableDefinitions(f0, f1)))
    &&& f0@ == "Variable file '"@ + path + "' does not define any variables. The purpose of Zat is to provide a templating tool to customise frequently used file structures. It does this by replacing variables defined in the file '"@ + path + "' on file and directory names of templates as well as within '.tmpl' files. If you want to simply copy a file structure use 'cp' instead."@
    &&& f1@ == "Please define at least one variable in the variable file '"@ + path + "'."@
}

/// Whether `e` is the error: the variable file at `path` could not be opened, for `reason`.
pub open spec fn variable_file_cant_be_opened_error(e: ZatError, path: Seq<char>, reason: Seq<char>) -> bool {
    &&& e matches ZatError::ProcessCommandError(ProcessCommandErrorReason::VariableFileError(VariableFileErrorReason::VariableOpenError(f0, f1)))
    &&& f0@ == "Variable file '"@ + path + "' could not be opened due to this error: "@ + reason + ". Zat uses this file to retrieve tokens that will be replaced when rendering the templates."@
    &&& f1@ == "Make sure Zat can open and read the variable file '"@ + path + "' and has the required file permissions."@
}

/// Whether `e` is the error: the variable file at `path` could not be read, for `reason`.
pub open spec fn variable_file_cant_be_read_error(e: ZatError, path: Seq<char>, reason: Seq<char>) -> bool {
    &&& e matches ZatError::ProcessCommandError(ProcessCommandErrorReason::VariableFileError(VariableFileErrorReason::VariableReadError(f0, f1)))
    &&& f0@ == "Variable file '"@ + path + "' could not be read due to this error: "@ + reason + ". Zat uses this file to retrieve tokens that will be replaced when rendering the templates."@
    &&& f1@ == "Make sure Zat can open and read the variable file '"@ + path + "' and has the required file permissions."@
}

/// Whether `e` is the error: the variable file at `path` is not in the expected format, for `reason`.
pub open spec fn variable_file_cant_be_decoded_error(e: ZatError, path: Seq<char>, reason: Seq<char>) -> bool {
    &&& e matches ZatError::ProcessCommandError(ProcessCommandErrorReason::VariableFileError(VariableFileErrorReason::VariableDecodeError(f0, f1)))
    &&& f0@ == "Variable file '"@ + path + "' could not be decoded as JSON into the expected format. It failed decoding with this error: "@ + reason + ". Zat uses this file to retrieve tokens that will be replaced when rendering the templates."@
    &&& f1@ == "Make the variable file '"@ + path + "' is a valid JSON file in the format required by Zat. See `zat --help` for more details on the format"@
}

/// Whether `e` is the error: the template directory at `path` holds no file.
pub open spec fn no_template_files_to_process_error(e: ZatError, path: Seq<char>) -> bool {
    &&& e matches ZatError::ProcessCommandError(ProcessCommandErrorReason::TemplateProcessingError(TemplateProcessingErrorReason::NoFilesToProcessError(f0, f1)))
    &&& f0@ == "There are no template files to process in the template directory '"@ + path + "'."@
    &&& f1@ == "Create at least one file in the template directory '"@ + path + "' for processing."@
}

/// Whether `e` is the error: the template file at `path` could not be read; `error` is the exception.
pub open spec fn could_not_read_template_file_error(e: ZatError, path: Seq<char>, error: Seq<char>) -> bool {
    &&& e matches ZatError::ProcessCommandError(ProcessCommandErrorReason::TemplateProcessingError(TemplateProcessingErrorReason::ReadingFileError(ReasonFileErrorReason::ReadingError(f0, f1, f2))))
    &&& f0@ == "Could not read template file '"@ + path + "'."@
    &&& f1@ == error
    &&& f2@ == "Ensure the template file '"@ + path + "' exists and has the necessary permissions for reading."@
}

/// Whether `e` is the error: the template file at `path` is not text; `error` is the exception.
pub open spec fn template_file_content_is_unsupported_error(e: ZatError, path: Seq<char>, error: Seq<char>) -> bool {
    &&& e matches ZatError::ProcessCommandError(ProcessCommandErrorReason::TemplateProcessingError(TemplateProcessingErrorReason::ReadingFileError(ReasonFileErrorReason::UnsupportedContentError(f0, f1, f2))))
    &&& f0@ == "Could not decode ReasonFileErrorReason::template file '"@ + path + "' content to a string. Only text file templates are supported."@
    &&& f1@ == error
    &&& f2@ == "Ensure the template file '"@ + path + "' is a text file and is not corrupted."@
}

/// Whether `e` is the error: the template file at `path` does not lie under `base_path`; `error` is the exception.
pub open spec fn could_not_determine_base_path_of_template_file_error(e: ZatError, base_path: Seq<char>, path: Seq<char>, error: Seq<char>) -> bool {
    &&& e matches ZatError::ProcessCommandError(ProcessCommandErrorReason::TemplateProcessingError(TemplateProcessingErrorReason::ReadingFileError(ReasonFileErrorReason::PrefixError(f0, f1, f2))))
    &&& f0@ == "Could not find base path "@ + base_path + " in template file '"@ + path + "'. The base path is needed to find the relative path at the output."@
    &&& f1@ == error
    &&& f2@ == "Ensure the template file '"@ + path + "' is a text file and is not corrupted."@
}

/// Whether `e` is the error: the output file at `path` could not be written; `error` is the exception.
pub open spec fn could_not_write_output_file_error(e: ZatError, path: Seq<char>, error: Seq<char>) -> bool {
    &&& e matches ZatError::ProcessCommandError(ProcessCommandErrorReason::TemplateProcessingError(TemplateProcessingErrorReason::WritingFileError(f0, f1, f2)))
    &&& f0@ == "Could not write output file '"@ + path + "'."@
    &&& f1@ == error
    &&& f2@ == "Ensure the output file '"@ + path + "' has the necessary permissions to be written and is a valid file name."@
}

/// Whether `e` is the error: the output directory at `path` could not be created; `error` is the exception.
pub open spec fn could_not_create_output_file_directory_error(e: ZatError, path: Seq<char>, error: Seq<char>) -> bool {
    &&& e matches ZatError::ProcessCommandError(ProcessCommandErrorReason::TemplateProcessingError(TemplateProcessingErrorReason::DirectoryCreationError(f0, f1, f2)))
    &&& f0@ == "Could not create output directory '"@ + path + "'."@
    &&& f1@ == error
    &&& f2@ == "Ensure the output directory '"@ + path + "' has the necessary permissions to be created and has a valid directory name."@
}

/// Whether `e` is the error: the shell hook at `path` could not be run; `error` is the exception.
pub open spec fn post_processing_hook_failed_error(e: ZatError, path: Seq<char>, error: Seq<char>) -> bool {
    &&& e matches ZatError::ProcessCommandError(ProcessCommandErrorReason::PostProcessingError(PostProcessingErrorReason::ExecutionError(f0, f1, f2)))
    &&& f0@ == "Shell hook '"@ + path + "' failed with an error."@
    &&& f1 matches Some(x) && x@ == error
    &&& f2@ == "Please ensure the shell hook file '"@ + path + "' exists and is executable."@
}

/// Whether `e` is the error: the shell hook at `path`, run with `arg`, exited with `status`.
pub open spec fn post_processing_hook_completed_with_non_zero_status_error(e: ZatError, path: Seq<char>, arg: Seq<char>, status: i32) -> bool {
    &&& e matches ZatError::ProcessCommandError(ProcessCommandErrorReason::PostProcessingError(PostProcessingErrorReason::NonZeroStatusCode(f0, f1)))
    &&& f0@ == "Shell hook '"@ + path + " "@ + arg + "' failed with status code "@ + int_decimal(status as int) + ". The shell hook failed with a non-zero error code signifying an error."@
    &&& f1@ == "Please check the logs above for why the shell hook failed. Try running the shell hook file '"@ + path + "' with argument '"@ + arg + "' manually to iterate on the error."@
}

/// Whether `e` is the error: the shell hook at `path` was killed.
pub open spec fn post_processing_hook_was_shutdown_error(e: ZatError, path: Seq<char>) -> bool {
    &&& e matches ZatError::ProcessCommandError(ProcessCommandErrorReason::PostProcessingError(PostProcessingErrorReason::ProcessInterrupted(f0, f1)))
    &&& f0@ == "Shell hook '"@ + path + "' was shutdown. Some other process killed the shell hook process."@
    &&& f1@ == "Try running the shell hook file '"@ + path + "' manually on the output."@
}

/// Whether `e` is the error: the bootstrap repository directory at `path` already exists.
pub open spec fn bootstrap_repository_dir_should_not_exist_error(e: ZatError, path: Seq<char>) -> bool {
    &&& e matches ZatError::BootstrapCommandError(BootstrapCommandErrorReason::RepositoryDirectoryShouldNotExist(f0, f1))
    &&& f0@ == "The repository directory '"@ + path + "' should not exist. It will be created by the Zat bootstrap process."@
    &&& f1@ == "Please supply an empty directory for the repository."@
}

/// Whether `e` is the error: the bootstrap repository directory at `path` could not be created; `exception` is the text of the I/O error.
pub open spec fn could_not_create_bootstrap_repository_error(e: ZatError, exception: Seq<char>, path: Seq<char>) -> bool {
    &&& e matches ZatError::BootstrapCommandError(BootstrapCommandErrorReason::CouldNotCreateRepositoryDirectory(f0, f1, f2))
    &&& f0@ == "The repository directory '"@ + path + "' could not be created."@
    &&& f1@ == exception
    &&& f2@ == "Please ensure the path supplied for the repository directory '"@ + path + "' is writable by the current user"@
}

/// Whether `e` is the error: the bootstrap file at `path` could not be created; `exception` is the text of the I/O error.
pub open spec fn could_not_create_bootstrap_file_error(e: ZatError, exception: Seq<char>, path: Seq<char>) -> bool {
    &&& e matches ZatError::BootstrapCommandError(BootstrapCommandErrorReason::CouldNotCreateFile(f0, f1, f2))
    &&& f0@ == "The bootstrap file '"@ + path + "' could not be created."@
    &&& f1@ == exception
    &&& f2@ == "Please ensure the file '"@ + path + "' is writable by the current user"@
}

/// Whether `e` is the error: no temporary checkout directory could be created; `error` is the exception.
pub open spec fn could_not_create_checkout_directory_error(e: ZatError, error: Seq<char>) -> bool {
    &&& e matches ZatError::ProcessRemoteCommandError(ProcessRemoteCommandErrorReason::CouldNotCreateCheckoutDirectory(f0, f1, f2))
    &&& f0@ == "Zat could not create a folder under your system's temporary directory. Zat needs to create a temporary local folder to checkout the remote repository."@
    &&& f1@ == error
    &&& f2@ == "Please ensure the Zat user has enough privileges to create a temporary directory and that you are not out of disk space"@
}

/// Whether `e` is the error: the remote repository `url` is not a URL; `error` is the parse error.
pub open spec fn invalid_remote_repository_url_error(e: ZatError, error: Seq<char>, url: Seq<char>) -> bool {
    &&& e matches ZatError::ProcessRemoteCommandError(ProcessRemoteCommandErrorReason::RemoteRepositoryUrlIsInvalid(f0, f1, f2))
    &&& f0@ == "The remote repository URL supplied '"@ + url + "' is invalid. Zat needs a valid URL to checkout this repository."@
    &&& f1@ == error
    &&& f2@ == "Please ensure the remote repository URL supplied is valid."@
}

/// Whether `e` is the error: the remote repository `url` has no host name.
pub open spec fn unsupported_hostname_error(e: ZatError, url: Seq<char>) -> bool {
    &&& e matches ZatError::ProcessRemoteCommandError(ProcessRemoteCommandErrorReason::RemoteRepositoryUrlHostnameIsInvalid(f0, f1))
    &&& f0@ == "The remote repository URL supplied '"@ + url + "' has an invalid hostname. Zat needs the hostname to be a domain name or IP address. IPv6 addresses should be supplied within square braces."@
    &&& f1@ == "Please ensure the remote repository URL hostname is a domain or an IP address."@
}

/// Whether `e` is the error: the checkout directory at `path` for the repository at `url` could not be created; `error` is the exception.
pub open spec fn could_not_create_checkout_directory_structure_error(e: ZatError, error: Seq<char>, path: Seq<char>, url: Seq<char>) -> bool {
    &&& e matches ZatError::ProcessRemoteCommandError(ProcessRemoteCommandErrorReason::CouldNotCreateCheckoutDirectoryStructure(f0, f1, f2))
    &&& f0@ == "Zat could not create the local checkout directory '"@ + path + "'. Zat needs to create a local checkout directory for the remote repository '"@ + url + "' before it clones it locally."@
    &&& f1@ == error
    &&& f2@ == "Please ensure the Zat user has enough privileges to create a directory at '"@ + path + "'."@
}

/// Whether `e` is the error: running `program` to clone `url` into `path` failed; `error` is the exception.
pub open spec fn git_clone_error_error(e: ZatError, error: Seq<char>, program: Seq<char>, url: Seq<char>, path: Seq<char>) -> bool {
    &&& e matches ZatError::ProcessRemoteCommandError(ProcessRemoteCommandErrorReason::GitCloneFailed(f0, f1, f2))
    &&& f0@ == "Zat could not could not clone remote repository '"@ + url + "' to local path '"@ + path + "'. \n\n    Zat ran the following command to clone the remote repository: \n    '"@ + program + "'"@
    &&& f1@ == error
    &&& f2@ == "Please ensure you have Git installed and it's accessible on the PATH used by Zat. Please also ensure Zat has enough privileges to create a directory at '"@ + path + "'."@
}

/// Whether `e` is the error: the plugin `plugin` could not be run; `exception` is the exception.
pub open spec fn could_not_run_plugin_error(e: ZatError, plugin: Seq<char>, exception: Seq<char>) -> bool {
    &&& e matches ZatError::PluginError(PluginErrorReason::CouldNotRunPlugin(f0, f1, f2, f3))
    &&& f0@ == plugin
    &&& f1@ == "Plugin could not be run. Does it exist and is it executable?"@
    &&& f2@ == exception
    &&& f3@ == "Try running the plugin manually to fix the above error."@
}

/// Whether `e` is the error: the output of the plugin `plugin` is not UTF-8; `exception` is the exception.
pub open spec fn could_not_decode_plugin_result_to_utf8_error(e: ZatError, plugin: Seq<char>, exception: Seq<char>) -> bool {
    &&& e matches ZatError::PluginError(PluginErrorReason::CouldNotDecodePluginOutputToUtf8(f0, f1, f2, f3))
    &&& f0@ == plugin
    &&& f1@ == "The plugin return invalid UTF8 characters."@
    &&& f2@ == exception
    &&& f3@ == "Try running the plugin manually to fix the above error."@
}

/// Whether `e` is the error: the error output of the plugin `plugin` is not UTF-8; `exception` is the exception.
pub open spec fn could_not_decode_plugin_stderr_to_utf8_error(e: ZatError, plugin: Seq<char>, exception: Seq<char>) -> bool {
    &&& e matches ZatError::PluginError(PluginErrorReason::CouldNotDecodePluginStdErrToUtf8(f0, f1, f2, f3))
    &&& f0@ == plugin
    &&& f1@ == "The plugin return invalid UTF8 characters to stderr."@
    &&& f2@ == exception
    &&& f3@ == "Try running the plugin manually to fix the above error."@
}

/// Whether `e` is the error: the plugin `plugin` reported `error`, with `exception` and `fix`.
pub open spec fn plugin_returned_error_error(e: ZatError, plugin: Seq<char>, error: Seq<char>, exception: Seq<char>, fix: Seq<char>) -> bool {
    &&& e matches ZatError::PluginError(PluginErrorReason::PluginFailure(f0, f1, f2, f3))
    &&& f0@ == plugin
    &&& f1@ == error
    &&& f2@ == exception
    &&& f3@ == fix
}

impl ZatError {
    /// The layout of this error.
    pub fn error_format(&self) -> (r: ErrorFormat)
        ensures
            r@ == error_format(*self),
    {
        match self {
            ZatError::ProcessCommandError(ProcessCommandErrorReason::UserConfigError(r)) => ErrorFormat::from_user_config_error(r),
            ZatError::ProcessCommandError(ProcessCommandErrorReason::VariableFileError(r)) => ErrorFormat::from_variable_file_error(r),
            ZatError::ProcessCommandError(ProcessCommandErrorReason::TemplateProcessingError(r)) => ErrorFormat::from_template_processing_error(r),
            ZatError::ProcessCommandError(ProcessCommandErrorReason::PostProcessingError(r)) => ErrorFormat::from_post_processing_error(r),
            ZatError::BootstrapCommandError(r) => ErrorFormat::from_bootstrap_command_error(r),
            ZatError::ProcessRemoteCommandError(r) => ErrorFormat::from_process_remote_command_error(r),
            ZatError::PluginError(r) => ErrorFormat::from_plugin_error(r),
            ZatError::GenericError(r) => ErrorFormat::from_generic_error(r),
        }
    }

    /// The heading this error is shown under.
    pub fn error_heading(&self) -> (r: &'static str)
        ensures
            r@ == error_heading(*self),
    {
        match self {
            ZatError::ProcessCommandError(ProcessCommandErrorReason::UserConfigError(_)) => "Got a configuration error",
            ZatError::ProcessCommandError(ProcessCommandErrorReason::VariableFileError(_)) => "Got an error processing variables",
            ZatError::ProcessCommandError(ProcessCommandErrorReason::TemplateProcessingError(_)) => "There was an error running the template",
            ZatError::ProcessCommandError(ProcessCommandErrorReason::PostProcessingError(_)) => "There was an error running the post processor",
            ZatError::BootstrapCommandError(_) => "There was an error running the bootstrap process",
            ZatError::ProcessRemoteCommandError(_) => "There was an error running a remote processing command",
            ZatError::PluginError(_) => "There was an error running a plugin",
            ZatError::GenericError(_) => "There was an unexpected error",
        }
    }

    /// A heading: the text in yellow, then a colon.
    pub fn heading(text: &str) -> (r: String)
        ensures
            r@ == heading(text@),
    {
        let mut h = paint_yellow(text);
        h.append(":");
        h
    }

    fn section(title: &str, content: &String) -> (r: String)
        ensures
            r@ == section(title@, content@),
    {
        let mut s = "\n\n".to_string();
        s.append("  ");
        let h = ZatError::heading(title);
        s.append(h.as_str());
        s.append("\n");
        s.append("    ");
        s.append(content.as_str());
        s
    }

    fn optional_section(title: &str, content: &Option<String>) -> (r: String)
        ensures
            r@ == optional_section(title@, match *content { Some(c) => Some(c@), None => None }),
    {
        match content {
            Some(c) => ZatError::section(title, c),
            None => String::new(),
        }
    }

    /// Shows an error with the given heading and layout.
    pub fn print_formatted_error(error_type: &str, error: ErrorFormat) -> (r: String)
        ensures
            r@ == formatted_error(error_type@, error@),
    {
        let mut s = ZatError::section(error_type, &error.error_reason);
        let e = ZatError::optional_section("Exception", &error.exception);
        s.append(e.as_str());
        let f = ZatError::optional_section("Possible fix", &error.remediation);
        s.append(f.as_str());
        s
    }

    /// This error as shown to the user.
    pub fn to_string(&self) -> (r: String)
        ensures
            r@ == formatted_error(error_heading(*self), error_format(*self)),
    {
        ZatError::print_formatted_error(self.error_heading(), self.error_format())
    }

    /// The repository directory at `path` does not exist.
    pub fn template_dir_does_not_exist(path: &str) -> (r: ZatError)
        ensures
            template_dir_does_not_exist_error(r, path@),
    {
        let mut f0 = "The Zat repository directory '".to_string();
        f0.append(path);
        f0.append("' does not exist. It should exist so Zat can read the template configuration.");
        let mut f1 = "Please create the Zat repository directory '".to_string();
        f1.append(path);
        f1.append("' with the Zat folder structure. See `zat --help` for more.");
        ZatError::ProcessCommandError(ProcessCommandErrorReason::UserConfigError(UserConfigErrorReason::RepositoryDirDoesNotExist(f0, f1)))
    }

    /// The template files directory at `path` does not exist.
    pub fn template_files_dir_does_not_exist(path: &str) -> (r: ZatError)
        ensures
            template_files_dir_does_not_exist_error(r, path@),
    {
        let mut f0 = "The Zat template files directory '".to_string();
        f0.append(path);
        f0.append("' does not exist. It should exist so Zat can read the template files.");
        let mut f1 = "Please create the Zat template files directory '".to_string();
        f1.append(path);
        f1.append("' with the necessary template files. See `zat --help` for more details.");
        ZatError::ProcessCommandError(ProcessCommandErrorReason::UserConfigError(UserConfigErrorReason::TemplateFilesDirDoesNotExist(f0, f1)))
    }

    /// The target directory at `path` already exists.
    pub fn target_dir_should_not_exist(path: &str) -> (r: ZatError)
        ensures
            target_dir_should_not_exist_error(r, path@),
    {
        let mut f0 = "The target directory '".to_string();
        f0.append(path);
        f0.append("' should not exist. It will be created when Zat processes the template files.");
        let f1 = "Please supply an empty directory for the target.".to_string();
        ZatError::ProcessCommandError(ProcessCommandErrorReason::UserConfigError(UserConfigErrorReason::TargetDirectoryShouldNotExist(f0, f1)))
    }

    /// The variable file at `path` does not exist.
    pub fn variable_file_does_not_exist(path: &str) -> (r: ZatError)
        ensures
            variable_file_does_not_exist_error(r, path@),
    {
        let mut f0 = "Variable file '".to_string();
        f0.append(path);
        f0.append("' does not exist. Zat uses this file to retrieve tokens that will be replaced when rendering the templates.");
        let mut f1 = "Please create the variable file '".to_string();
        f1.append(path);
        f1.append("' with the required tokens. See `zat --help` for more details.");
        ZatError::ProcessCommandError(ProcessCommandErrorReason::VariableFileError(VariableFileErrorReason::VariableFileNotFound(f0, f1)))
    }

    /// The variable file at `path` defines no variable.
    pub fn variable_file_has_no_variables_defined(path: &str) -> (r: ZatError)
        ensures
            variable_file_has_no_variables_defined_error(r, path@),
    {
        let mut f0 = "Variable file '".to_string();
        f0.append(path);
        f0.append("' does not define any variables. The purpose of Zat is to provide a templating tool to customise frequently used file structures. It does this by replacing variables defined in the file '");
        f0.append(path);
        f0.append("' on file and directory names of templates as well as within '.tmpl' files. If you want to simply copy a file structure use 'cp' instead.");
        let mut f1 = "Please define at least one variable in the variable file '".to_string();
        f1.append(path);
        f1.append("'.");
        ZatError::ProcessCommandError(ProcessCommandErrorReason::VariableFileError(VariableFileErrorReason::VariableFileHasNoVariableDefinitions(f0, f1)))
    }

    /// The variable file at `path` could not be opened, for `reason`.
    pub fn variable_file_cant_be_opened(path: &str, reason: &str) -> (r: ZatError)
        ensures
            variable_file_cant_be_opened_error(r, path@, reason@),
    {
        let mut f0 = "Variable file '".to_string();
        f0.append(path);
        f0.append("' could not be opened due to this error: ");
        f0.append(reason);
        f0.append(". Zat uses this file to retrieve tokens that will be replaced when rendering the templates.");
        let mut f1 = "Make sure Zat can open and read the variable file '".to_string();
        f1.append(path);
        f1.append("' and has the required file permissions.");
        ZatError::ProcessCommandError(ProcessCommandErrorReason::VariableFileError(VariableFileErrorReason::VariableOpenError(f0, f1)))
    }

    /// The variable file at `path` could not be read, for `reason`.
    pub fn variable_file_cant_be_read(path: &str, reason: &str) -> (r: ZatError)
        ensures
            variable_file_cant_be_read_error(r, path@, reason@),
    {
        let mut f0 = "Variable file '".to_string();
        f0.append(path);
        f0.append("' could not be read due to this error: ");
        f0.append(reason);
        f0.append(". Zat uses this file to retrieve tokens that will be replaced when rendering the templates.");
        let mut f1 = "Make sure Zat can open and read the variable file '".to_string();
        f1.append(path);
        f1.append("' and has the required file permissions.");
        ZatError::ProcessCommandError(ProcessCommandErrorReason::VariableFileError(VariableFileErrorReason::VariableReadError(f0, f1)))
    }

    /// The variable file at `path` is not in the expected format, for `reason`.
    pub fn variable_file_cant_be_decoded(path: &str, reason: &str) -> (r: ZatError)
        ensures
            variable_file_cant_be_decoded_error(r, path@, reason@),
    {
        let mut f0 = "Variable file '".to_string();
        f0.append(path);
        f0.append("' could not be decoded as JSON into the expected format. It failed decoding with this error: ");
        f0.append(reason);
        f0.append(". Zat uses this file to retrieve tokens that will be replaced when rendering the templates.");
        let mut f1 = "Make the variable file '".to_string();
        f1.append(path);
        f1.append("' is a valid JSON file in the format required by Zat. See `zat --help` for more details on the format");
        ZatError::ProcessCommandError(ProcessCommandErrorReason::VariableFileError(VariableFileErrorReason::VariableDecodeError(f0, f1)))
    }

    /// The template directory at `path` holds no file.
    pub fn no_template_files_to_process(path: &str) -> (r: ZatError)
        ensures
            no_template_files_to_process_error(r, path@),
    {
        let mut f0 = "There are no template files to process in the template directory '".to_string();
        f0.append(path);
        f0.append("'.");
        let mut f1 = "Create at least one file in the template directory '".to_string();
        f1.append(path);
        f1.append("' for processing.");
        ZatError::ProcessCommandError(ProcessCommandErrorReason::TemplateProcessingError(TemplateProcessingErrorReason::NoFilesToProcessError(f0, f1)))
    }

    /// The template file at `path` could not be read; `error` is the exception.
    pub fn could_not_read_template_file(path: &str, error: String) -> (r: ZatError)
        ensures
            could_not_read_template_file_error(r, path@, error@),
    {
        let mut f0 = "Could not read template file '".to_string();
        f0.append(path);
        f0.append("'.");
        let f1 = error;
        let mut f2 = "Ensure the template file '".to_string();
        f2.append(path);
        f2.append("' exists and has the necessary permissions for reading.");
        ZatError::ProcessCommandError(ProcessCommandErrorReason::TemplateProcessingError(TemplateProcessingErrorReason::ReadingFileError(ReasonFileErrorReason::ReadingError(f0, f1, f2))))
    }

    /// The template file at `path` is not text; `error` is the exception.
    pub fn template_file_content_is_unsupported(path: &str, error: String) -> (r: ZatError)
        ensures
            template_file_content_is_unsupported_error(r, path@, error@),
    {
        let mut f0 = "Could not decode ReasonFileErrorReason::template file '".to_string();
        f0.append(path);
        f0.append("' content to a string. Only text file templates are supported.");
        let f1 = error;
        let mut f2 = "Ensure the template file '".to_string();
        f2.append(path);
        f2.append("' is a text file and is not corrupted.");
        ZatError::ProcessCommandError(ProcessCommandErrorReason::TemplateProcessingError(TemplateProcessingErrorReason::ReadingFileError(ReasonFileErrorReason::UnsupportedContentError(f0, f1, f2))))
    }

    /// The template file at `path` does not lie under `base_path`; `error` is the exception.
    pub fn could_not_determine_base_path_of_template_file(base_path: &str, path: &str, error: String) -> (r: ZatError)
        ensures
            could_not_determine_base_path_of_template_file_error(r, base_path@, path@, error@),
    {
        let mut f0 = "Could not find base path ".to_string();
        f0.append(base_path);
        f0.append(" in template file '");
        f0.append(path);
        f0.append("'. The base path is needed to find the relative path at the output.");
        let f1 = error;
        let mut f2 = "Ensure the template file '".to_string();
        f2.append(path);
        f2.append("' is a text file and is not corrupted.");
        ZatError::ProcessCommandError(ProcessCommandErrorReason::TemplateProcessingError(TemplateProcessingErrorReason::ReadingFileError(ReasonFileErrorReason::PrefixError(f0, f1, f2))))
    }

    /// The output file at `path` could not be written; `error` is the exception.
    pub fn could_not_write_output_file(path: &str, error: String) -> (r: ZatError)
        ensures
            could_not_write_output_file_error(r, path@, error@),
    {
        let mut f0 = "Could not write output file '".to_string();
        f0.append(path);
        f0.append("'.");
        let f1 = error;
        let mut f2 = "Ensure the output file '".to_string();
        f2.append(path);
        f2.append("' has the necessary permissions to be written and is a valid file name.");
        ZatError::ProcessCommandError(ProcessCommandErrorReason::TemplateProcessingError(TemplateProcessingErrorReason::WritingFileError(f0, f1, f2)))
    }

    /// The output directory at `path` could not be created; `error` is the exception.
    pub fn could_not_create_output_file_directory(path: &str, error: String) -> (r: ZatError)
        ensures
            could_not_create_output_file_directory_error(r, path@, error@),
    {
        let mut f0 = "Could not create output directory '".to_string();
        f0.append(path);
        f0.append("'.");
        let f1 = error;
        let mut f2 = "Ensure the output directory '".to_string();
        f2.append(path);
        f2.append("' has the necessary permissions to be created and has a valid directory name.");
        ZatError::ProcessCommandError(ProcessCommandErrorReason::TemplateProcessingError(TemplateProcessingErrorReason::DirectoryCreationError(f0, f1, f2)))
    }

    /// The shell hook at `path` could not be run; `error` is the exception.
    pub fn post_processing_hook_failed(path: &str, error: String) -> (r: ZatError)
        ensures
            post_processing_hook_failed_error(r, path@, error@),
    {
        let mut f0 = "Shell hook '".to_string();
        f0.append(path);
        f0.append("' failed with an error.");
        let f1 = Some(error);
        let mut f2 = "Please ensure the shell hook file '".to_string();
        f2.append(path);
        f2.append("' exists and is executable.");
        ZatError::ProcessCommandError(ProcessCommandErrorReason::PostProcessingError(PostProcessingErrorReason::ExecutionError(f0, f1, f2)))
    }

    /// The shell hook at `path`, run with `arg`, exited with `status`.
    pub fn post_processing_hook_completed_with_non_zero_status(path: &str, arg: &str, status: i32) -> (r: ZatError)
        ensures
            post_processing_hook_completed_with_non_zero_status_error(r, path@, arg@, status),
    {
        let status_text = i32_to_string(status);
        let mut f0 = "Shell hook '".to_string();
        f0.append(path);
        f0.append(" ");
        f0.append(arg);
        f0.append("' failed with status code ");
        f0.append(status_text.as_str());
        f0.append(". The shell hook failed with a non-zero error code signifying an error.");
        let mut f1 = "Please check the logs above for why the shell hook failed. Try running the shell hook file '".to_string();
        f1.append(path);
        f1.append("' with argument '");
        f1.append(arg);
        f1.append("' manually to iterate on the error.");
        ZatError::ProcessCommandError(ProcessCommandErrorReason::PostProcessingError(PostProcessingErrorReason::NonZeroStatusCode(f0, f1)))
    }

    /// The shell hook at `path` was killed.
    pub fn post_processing_hook_was_shutdown(path: &str) -> (r: ZatError)
        ensures
            post_processing_hook_was_shutdown_error(r, path@),
    {
        let mut f0 = "Shell hook '".to_string();
        f0.append(path);
        f0.append("' was shutdown. Some other process killed the shell hook process.");
        let mut f1 = "Try running the shell hook file '".to_string();
        f1.append(path);
        f1.append("' manually on the output.");
        ZatError::ProcessCommandError(ProcessCommandErrorReason::PostProcessingError(PostProcessingErrorReason::ProcessInterrupted(f0, f1)))
    }

    /// The bootstrap repository directory at `path` already exists.
    pub fn bootstrap_repository_dir_should_not_exist(path: &str) -> (r: ZatError)
        ensures
            bootstrap_repository_dir_should_not_exist_error(r, path@),
    {
        let mut f0 = "The repository directory '".to_string();
        f0.append(path);
        f0.append("' should not exist. It will be created by the Zat bootstrap process.");
        let f1 = "Please supply an empty directory for the repository.".to_string();
        ZatError::BootstrapCommandError(BootstrapCommandErrorReason::RepositoryDirectoryShouldNotExist(f0, f1))
    }

    /// The bootstrap repository directory at `path` could not be created; `exception` is the text of the I/O error.
    pub fn could_not_create_bootstrap_repository(exception: String, path: &str) -> (r: ZatError)
        ensures
            could_not_create_bootstrap_repository_error(r, exception@, path@),
    {
        let mut f0 = "The repository directory '".to_string();
        f0.append(path);
        f0.append("' could not be created.");
        let f1 = exception;
        let mut f2 = "Please ensure the path supplied for the repository directory '".to_string();
        f2.append(path);
        f2.append("' is writable by the current user");
        ZatError::BootstrapCommandError(BootstrapCommandErrorReason::CouldNotCreateRepositoryDirectory(f0, f1, f2))
    }

    /// The bootstrap file at `path` could not be created; `exception` is the text of the I/O error.
    pub fn could_not_create_bootstrap_file(exception: String, path: &str) -> (r: ZatError)
        ensures
            could_not_create_bootstrap_file_error(r, exception@, path@),
    {
        let mut f0 = "The bootstrap file '".to_string();
        f0.append(path);
        f0.append("' could not be created.");
        let f1 = exception;
        let mut f2 = "Please ensure the file '".to_string();
        f2.append(path);
        f2.append("' is writable by the current user");
        ZatError::BootstrapCommandError(BootstrapCommandErrorReason::CouldNotCreateFile(f0, f1, f2))
    }

    /// No temporary checkout directory could be created; `error` is the exception.
    pub fn could_not_create_checkout_directory(error: String) -> (r: ZatError)
        ensures
            could_not_create_checkout_directory_error(r, error@),
    {
        let f0 = "Zat could not create a folder under your system's temporary directory. Zat needs to create a temporary local folder to checkout the remote repository.".to_string();
        let f1 = error;
        let f2 = "Please ensure the Zat user has enough privileges to create a temporary directory and that you are not out of disk space".to_string();
        ZatError::ProcessRemoteCommandError(ProcessRemoteCommandErrorReason::CouldNotCreateCheckoutDirectory(f0, f1, f2))
    }

    /// The remote repository `url` is not a URL; `error` is the parse error.
    pub fn invalid_remote_repository_url(error: String, url: &str) -> (r: ZatError)
        ensures
            invalid_remote_repository_url_error(r, error@, url@),
    {
        let mut f0 = "The remote repository URL supplied '".to_string();
        f0.append(url);
        f0.append("' is invalid. Zat needs a valid URL to checkout this repository.");
        let f1 = error;
        let f2 = "Please ensure the remote repository URL supplied is valid.".to_string();
        ZatError::ProcessRemoteCommandError(ProcessRemoteCommandErrorReason::RemoteRepositoryUrlIsInvalid(f0, f1, f2))
    }

    /// The remote repository `url` has no host name.
    pub fn unsupported_hostname(url: &str) -> (r: ZatError)
        ensures
            unsupported_hostname_error(r, url@),
    {
        let mut f0 = "The remote repository URL supplied '".to_string();
        f0.append(url);
        f0.append("' has an invalid hostname. Zat needs the hostname to be a domain name or IP address. IPv6 addresses should be supplied within square braces.");
        let f1 = "Please ensure the remote repository URL hostname is a domain or an IP address.".to_string();
        ZatError::ProcessRemoteCommandError(ProcessRemoteCommandErrorReason::RemoteRepositoryUrlHostnameIsInvalid(f0, f1))
    }

    /// The checkout directory at `path` for the repository at `url` could not be created; `error` is the exception.
    pub fn could_not_create_checkout_directory_structure(error: String, path: &str, url: &str) -> (r: ZatError)
        ensures
            could_not_create_checkout_directory_structure_error(r, error@, path@, url@),
    {
        let mut f0 = "Zat could not create the local checkout directory '".to_string();
        f0.append(path);
        f0.append("'. Zat needs to create a local checkout directory for the remote repository '");
        f0.append(url);
        f0.append("' before it clones it locally.");
        let f1 = error;
        let mut f2 = "Please ensure the Zat user has enough privileges to create a directory at '".to_string();
        f2.append(path);
        f2.append("'.");
        ZatError::ProcessRemoteCommandError(ProcessRemoteCommandErrorReason::CouldNotCreateCheckoutDirectoryStructure(f0, f1, f2))
    }

    /// Running `program` to clone `url` into `path` failed; `error` is the exception.
    pub fn git_clone_error(error: String, program: &str, url: &str, path: &str) -> (r: ZatError)
        ensures
            git_clone_error_error(r, error@, program@, url@, path@),
    {
        let mut f0 = "Zat could not could not clone remote repository '".to_string();
        f0.append(url);
        f0.append("' to local path '");
        f0.append(path);
        f0.append("'. \n\n    Zat ran the following command to clone the remote repository: \n    '");
        f0.append(program);
        f0.append("'");
        let f1 = error;
        let mut f2 = "Please ensure you have Git installed and it's accessible on the PATH used by Zat. Please also ensure Zat has enough privileges to create a directory at '".to_string();
        f2.append(path);
        f2.append("'.");
        ZatError::ProcessRemoteCommandError(ProcessRemoteCommandErrorReason::GitCloneFailed(f0, f1, f2))
    }

    /// The plugin `plugin` could not be run; `exception` is the exception.
    pub fn could_not_run_plugin(plugin: &str, exception: String) -> (r: ZatError)
        ensures
            could_not_run_plugin_error(r, plugin@, exception@),
    {
        let mut f0 = String::new();
        f0.append(plugin);
        let f1 = "Plugin could not be run. Does it exist and is it executable?".to_string();
        let f2 = exception;
        let f3 = "Try running the plugin manually to fix the above error.".to_string();
        assert(f0@ =~= plugin@);
        ZatError::PluginError(PluginErrorReason::CouldNotRunPlugin(f0, f1, f2, f3))
    }

    /// The output of the plugin `plugin` is not UTF-8; `exception` is the exception.
    pub fn could_not_decode_plugin_result_to_utf8(plugin: &str, exception: String) -> (r: ZatError)
        ensures
            could_not_decode_plugin_result_to_utf8_error(r, plugin@, exception@),
    {
        let mut f0 = String::new();
        f0.append(plugin);
        let f1 = "The plugin return invalid UTF8 characters.".to_string();
        let f2 = exception;
        let f3 = "Try running the plugin manually to fix the above error.".to_string();
        assert(f0@ =~= plugin@);
        ZatError::PluginError(PluginErrorReason::CouldNotDecodePluginOutputToUtf8(f0, f1, f2, f3))
    }

    /// The error output of the plugin `plugin` is not UTF-8; `exception` is the exception.
    pub fn could_not_decode_plugin_stderr_to_utf8(plugin: &str, exception: String) -> (r: ZatError)
        ensures
            could_not_decode_plugin_stderr_to_utf8_error(r, plugin@, exception@),
    {
        let mut f0 = String::new();
        f0.append(plugin);
        let f1 = "The plugin return invalid UTF8 characters to stderr.".to_string();
        let f2 = exception;
        let f3 = "Try running the plugin manually to fix the above error.".to_string();
        assert(f0@ =~= plugin@);
        ZatError::PluginError(PluginErrorReason::CouldNotDecodePluginStdErrToUtf8(f0, f1, f2, f3))
    }

    /// The plugin `plugin` reported `error`, with `exception` and `fix`.
    pub fn plugin_returned_error(plugin: &str, error: &str, exception: &str, fix: &str) -> (r: ZatError)
        ensures
            plugin_returned_error_error(r, plugin@, error@, exception@, fix@),
    {
        let mut f0 = String::new();
        f0.append(plugin);
        let mut f1 = String::new();
        f1.append(error);
        let mut f2 = String::new();
        f2.append(exception);
        let mut f3 = String::new();
        f3.append(fix);
        assert(f0@ =~= plugin@);
        assert(f1@ =~= error@);
        assert(f2@ =~= exception@);
        assert(f3@ =~= fix@);
        ZatError::PluginError(PluginErrorReason::PluginFailure(f0, f1, f2, f3))
    }

    /// The plugin `plugin` exited with a status other than success; the code
    /// is shown when there is one.
    pub fn plugin_return_invalid_status_code(plugin: &str, opt_code: Option<&i32>) -> (r: ZatError)
        ensures
            r matches ZatError::PluginError(PluginErrorReason::PluginReturnedInvalidExitCodeFailure(f0, f1, f2))
                && f0@ == plugin@
                && f1@ == "Plugin failed with status code "@ + match opt_code {
                    Some(c) => int_decimal(*c as int),
                    None => "unknown"@,
                } + ". The plugin failed with a non-zero error code signifying an error."@
                && f2@ == "Try running the plugin manually to fix the above error."@,
    {
        let mut f0 = String::new();
        f0.append(plugin);
        assert(f0@ =~= plugin@);
        let code = match opt_code {
            Some(c) => i32_to_string(*c),
            None => "unknown".to_string(),
        };
        let mut f1 = "Plugin failed with status code ".to_string();
        f1.append(code.as_str());
        f1.append(". The plugin failed with a non-zero error code signifying an error.");
        let f2 = "Try running the plugin manually to fix the above error.".to_string();
        ZatError::PluginError(PluginErrorReason::PluginReturnedInvalidExitCodeFailure(f0, f1, f2))
    }

    /// The result of the plugin `plugin` is not in the expected format;
    /// `exception` is the decoding error, and what the plugin wrote to its
    /// error output is shown when it wrote anything.
    pub fn could_not_decode_plugin_result_to_json(plugin: &str, exception: String, result: &str, std_err: &str) -> (r: ZatError)
        ensures
            r matches ZatError::PluginError(PluginErrorReason::CouldNotDecodePluginResultToJson(f0, f1, f2, f3))
                && f0@ == plugin@
                && f1@ == "Could not decode result from plugin. The plugin returned: '"@ + result@ + "'."@ + (
                    if std_err@.len() != 0 {
                        " The plugin returned the following error: "@ + std_err@
                    } else {
                        Seq::empty()
                    })
                && f2@ == exception@
                && f3@ == "Try running the plugin manually verify the output format of the plugin adheres to the Zat Plugin Specification."@,
    {
        let mut error_message = String::new();
        if !std_err.is_empty() {
            error_message.append(" The plugin returned the following error: ");
            error_message.append(std_err);
        }
        assert(std_err@.len() != 0 ==> error_message@ =~= " The plugin returned the following error: "@ + std_err@);
        let mut f0 = String::new();
        f0.append(plugin);
        assert(f0@ =~= plugin@);
        let mut f1 = "Could not decode result from plugin. The plugin returned: '".to_string();
        f1.append(result);
        f1.append("'.");
        f1.append(error_message.as_str());
        let f3 = "Try running the plugin manually verify the output format of the plugin adheres to the Zat Plugin Specification.".to_string();
        ZatError::PluginError(PluginErrorReason::CouldNotDecodePluginResultToJson(f0, f1, exception, f3))
    }

    /// Cloning `url` with `program` exited with a status other than success;
    /// the code is shown when there is one.
    pub fn git_clone_status_error(error_code: Option<i32>, program: &str, url: &str) -> (r: ZatError)
        ensures
            r matches ZatError::ProcessRemoteCommandError(ProcessRemoteCommandErrorReason::GitCloneStatusError(f0, f1))
                && f0@ == "Zat could not could not clone remote repository '"@ + url@ + "' because it returned an exit code of '"@
                    + match error_code {
                        Some(c) => int_decimal(c as int),
                        None => "Unknown"@,
                    } + "'."@
                && f1@ == "Please ensure the following command runs successfully external to Zat: '"@ + program@
                    + "'. It should also not require a password as Zat does not support private repositories that are not accessible through your Git user. Please also see the clone output for possible other issues."@,
    {
        let code = match error_code {
            Some(c) => i32_to_string(c),
            None => "Unknown".to_string(),
        };
        let mut f0 = "Zat could not could not clone remote repository '".to_string();
        f0.append(url);
        f0.append("' because it returned an exit code of '");
        f0.append(code.as_str());
        f0.append("'.");
        let mut f1 = "Please ensure the following command runs successfully external to Zat: '".to_string();
        f1.append(program);
        f1.append("'. It should also not require a password as Zat does not support private repositories that are not accessible through your Git user. Please also see the clone output for possible other issues.");
        ZatError::ProcessRemoteCommandError(ProcessRemoteCommandErrorReason::GitCloneStatusError(f0, f1))
    }

    /// An error that fits no other kind, with the given error and exception.
    pub fn generic_error(error: &str, exception: String) -> (r: ZatError)
        ensures
            r matches ZatError::GenericError(g) && g.error@ == error@ && g.exception@ == exception@ && g.fix@ == Seq::<char>::empty(),
    {
        let mut e = String::new();
        e.append(error);
        assert(e@ =~= error@);
        ZatError::GenericError(GenericErrorReason { error: e, exception, fix: String::new() })
    }
}

} // verus!
