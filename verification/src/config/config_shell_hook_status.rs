use vstd::prelude::*;

verus! {

/// Whether a shell hook runs after processing, and the path of its file.
#[derive(Debug, Clone, PartialEq)]
pub enum ConfigShellHookStatus {
    NoShellHook,
    RunShellHook(String),
}

impl Default for ConfigShellHookStatus {
    fn default() -> (r: Self)
        ensures
            r is NoShellHook,
    {
        ConfigShellHookStatus::NoShellHook
    }
}

} // verus!
