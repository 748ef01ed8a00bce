use vstd::prelude::*;
use crate::text::{join, seq_join};

verus! {

/// The filters named on the command line.
#[derive(Debug, Clone, PartialEq)]
pub struct Filters {
    pub values: Vec<String>,
}

impl Default for Filters {
    fn default() -> (r: Self)
        ensures
            r.values@.len() == 0,
    {
        Filters { values: Vec::new() }
    }
}

impl Filters {
    /// The filters, separated by commas.
    pub fn to_string(&self) -> (r: String)
        ensures
            r@ == seq_join(self.values@.map_values(|s: String| s@), ","@),
    {
        join(&self.values, ",")
    }
}

} // verus!
