use vstd::prelude::*;
use super::Args;

verus! {

/// Returns the arguments supplied to the program.
pub trait ArgSupplier {
    fn get_args(&self) -> Args;
}

} // verus!
