//! The errors the library reports, how each is worded, and how each is shown
//! to the user.

pub mod zat_error;
pub mod error_format;
pub mod user_config_error_reason;
pub mod variable_file_error_reason;
pub mod template_processing_error_reason;
pub mod post_processing_error_reason;
pub mod bootstrap_command_error_reason;
pub mod process_remote_command_error_reason;
pub mod plugin_error_reason;
pub mod generic_error_reason;

pub use zat_error::{ZatAction, ZatError, ZatResult, ProcessCommandErrorReason};
pub use error_format::ErrorFormat;
pub use user_config_error_reason::UserConfigErrorReason;
pub use variable_file_error_reason::VariableFileErrorReason;
pub use template_processing_error_reason::{TemplateProcessingErrorReason, ReasonFileErrorReason};
pub use post_processing_error_reason::PostProcessingErrorReason;
pub use bootstrap_command_error_reason::BootstrapCommandErrorReason;
pub use process_remote_command_error_reason::ProcessRemoteCommandErrorReason;
pub use plugin_error_reason::PluginErrorReason;
pub use generic_error_reason::GenericErrorReason;
