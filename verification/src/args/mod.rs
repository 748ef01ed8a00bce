//! The arguments a user supplies, and the configuration derived from them.

pub mod cli;
pub mod arg_supplier;
pub mod cli_arg_supplier;
pub mod user_config_provider;
pub mod default_user_config_provider;

pub use cli::{Args, ZatCommand, ProcessTemplatesArgs, BootstrapProjectArgs, ProcessRemoteTemplatesArgs, ChoiceMenuStyle};
pub use arg_supplier::ArgSupplier;
pub use cli_arg_supplier::CliArgSupplier;
pub use user_config_provider::UserConfigProvider;
pub use default_user_config_provider::DefaultUserConfigProvider;
