use vstd::prelude::*;

verus! {

/// Whether a shell hook runs after processing, and the path of its file.
#[derive(Debug, Clone, PartialEq)]
pub enum ShellHookStatus {
    NoShellHook,
    RunShellHook(String),
}

impl Default for ShellHookStatus {
    fn default() -> (r: Self)
        ensures
            r is NoShellHook,
    {
        ShellHookStatus::NoShellHook
    }
}

} // verus!
