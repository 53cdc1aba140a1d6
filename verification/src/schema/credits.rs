use vstd::prelude::*;

use crate::schema::credit::Credit;

verus! {

/// Release credits: artists, composers and the rest.
#[derive(Clone, Debug)]
pub struct Credits {
    /// Arrangers; only one deployment reports them.
    pub arranger: Option<Vec<Credit>>,
    /// Artists.
    pub artists: Vec<Credit>,
    /// Composers; typically present for classical works.
    pub composers: Vec<Credit>,
    /// Conductors; typically present for classical works.
    pub conductor: Vec<Credit>,
    /// DJs.
    pub dj: Vec<Credit>,
    /// Producers.
    pub producer: Vec<Credit>,
    /// Remix artists.
    pub remixed_by: Vec<Credit>,
    /// Featured artists.
    pub with: Vec<Credit>,
}

} // verus!
