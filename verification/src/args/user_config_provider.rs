use vstd::prelude::*;
use super::ProcessTemplatesArgs;
use crate::config::UserConfig;
use crate::error::ZatResult;
use super::default_user_config_provider::{user_config_result, ConfigPathsFound};

verus! {

/// Returns the configuration of a run of the process command.
pub trait UserConfigProvider {
    /// The configuration of the arguments, as decided by which of the
    /// paths they name exist.
    fn get_user_config(&self, args: ProcessTemplatesArgs) -> (r: ZatResult<UserConfig>)
        ensures
            exists|found: ConfigPathsFound| #[trigger] user_config_result(args, found, r),
    ;
}

} // verus!
