use vstd::prelude::*;

use crate::schema::credit::Credit;

verus! {

/// The credited contributors of a release, grouped by role.
#[derive(Clone, Debug)]
pub struct MusicInfo {
    pub arranger: Option<Vec<Credit>>,
    pub artists: Vec<Credit>,
    pub composers: Vec<Credit>,
    pub conductor: Vec<Credit>,
    pub dj: Vec<Credit>,
    pub producer: Vec<Credit>,
    pub remixed_by: Vec<Credit>,
    pub with: Vec<Credit>,
}

} // verus!
