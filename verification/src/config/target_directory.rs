use vstd::prelude::*;

verus! {

/// The directory the processed templates are written to.
#[derive(Debug, Clone, PartialEq)]
pub struct TargetDir {
    pub path: String,
}

impl TargetDir {
    pub fn new(path: &str) -> (r: Self)
        ensures
            r.path@ == path@,
    {
        TargetDir { path: path.to_string() }
    }
}

impl Default for TargetDir {
    fn default() -> (r: Self)
        ensures
            r.path@ == Seq::<char>::empty(),
    {
        TargetDir { path: String::new() }
    }
}

} // verus!
