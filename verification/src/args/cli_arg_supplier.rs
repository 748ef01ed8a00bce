use vstd::prelude::*;

verus! {

/// Supplies the arguments given on the command line.
pub struct CliArgSupplier;

} // verus!
