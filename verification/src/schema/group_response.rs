use vstd::prelude::*;

use crate::schema::group::Group;
use crate::schema::torrent::Torrent;

verus! {

/// Response for the torrent-group action.
#[derive(Clone, Debug)]
pub struct GroupResponse {
    /// Release information.
    pub group: Group,
    /// Editions.
    pub torrents: Vec<Torrent>,
}

} // verus!
