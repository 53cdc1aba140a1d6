use vstd::prelude::*;

verus! {

/// One credited contributor to a release.
#[derive(Clone, Debug)]
pub struct Credit {
    /// ID number.
    pub id: u32,
    /// Name.
    pub name: String,
}

} // verus!
