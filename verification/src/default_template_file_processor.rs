//! Processing the template files under a configuration.

use vstd::prelude::*;
use crate::config::UserConfigX;

verus! {

/// Processes template files with the configuration they were found under.
pub struct DefaultTemplateFileProcessor {
    pub config: UserConfigX,
}

} // verus!
