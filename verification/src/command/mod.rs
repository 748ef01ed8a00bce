//! The commands: processing a template repository, creating a bootstrap
//! repository, and processing a remote repository.

pub mod bootstrap_project;
pub mod process_templates;
pub mod process_remote_templates;

pub use bootstrap_project::BootstrapProject;
pub use process_templates::ProcessTemplates;
pub use process_remote_templates::ProcessRemoteTemplates;
