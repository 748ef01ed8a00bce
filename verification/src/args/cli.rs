use vstd::prelude::*;

verus! {

/// The arguments of a run: the command to run.
#[derive(Debug, Clone, PartialEq)]
pub struct Args {
    pub command: ZatCommand,
}

/// The commands.
#[derive(Debug, Clone, PartialEq)]
pub enum ZatCommand {
    /// Process templates defined in a Zat repository.
    Process(ProcessTemplatesArgs),
    /// Generate a minimal bootstrap Zat repository.
    Bootstrap(BootstrapProjectArgs),
    /// Process templates defined in a remote Zat repository.
    ProcessRemote(ProcessRemoteTemplatesArgs),
}

/// How choices are asked of the user.
#[derive(Debug, Clone, Copy, PartialEq, Eq)]
pub enum ChoiceMenuStyle {
    Numbered,
    Selection,
}

/// The arguments of the process command.
#[derive(Debug, Clone, PartialEq)]
pub struct ProcessTemplatesArgs {
    /// The location of the Zat repository. This should exist.
    pub repository_dir: String,
    /// Where to extract the template to. This directory should not exist.
    pub target_dir: String,
    /// Files or folders to ignore within the template directory.
    pub ignores: Vec<String>,
    /// Verbose debug logging.
    pub verbose: bool,
    /// How choices are asked of the user.
    pub choice_menu_style: Option<ChoiceMenuStyle>,
}

/// The arguments of the bootstrap command.
#[derive(Debug, Clone, PartialEq)]
pub struct BootstrapProjectArgs {
    /// Where to create the sample repository. This directory should not exist.
    pub repository_dir: String,
}

/// The arguments of the process-remote command.
#[derive(Debug, Clone, PartialEq)]
pub struct ProcessRemoteTemplatesArgs {
    /// Remote http(s) URL of a Git repository.
    pub repository_url: String,
    /// Where to extract the template to. This directory should not exist.
    pub target_dir: String,
    /// Files or folders to ignore.
    pub ignores: Vec<String>,
    /// Verbose debug logging.
    pub verbose: bool,
    /// How choices are asked of the user.
    pub choice_menu_style: Option<ChoiceMenuStyle>,
}

} // verus!
