//! The configuration of a run: where the template repository and the target
//! directory are, and what is ignored.

pub mod path;
pub mod ignored_files;
pub mod filters;
pub mod target_directory;
pub mod template_directory;
pub mod template_files_directory;
pub mod variable_file;
pub mod config_shell_hook_status;
pub mod shell_hook_status;
pub mod user_config;
pub mod user_config_x;

pub use ignored_files::IgnoredFiles;
pub use filters::Filters;
pub use target_directory::TargetDir;
pub use template_directory::TemplateDir;
pub use template_files_directory::{TemplateFilesDir, TEMPLATE_FILES_DIR};
pub use variable_file::{VariableFile, DOT_VARIABLES_PROMPT};
pub use config_shell_hook_status::ConfigShellHookStatus;
pub use shell_hook_status::ShellHookStatus;
pub use user_config::{UserConfig, MenuStyle};
pub use user_config_x::UserConfigX;
pub use template_directory::SHELL_HOOK_FILE;
