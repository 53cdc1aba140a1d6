use vstd::prelude::*;

use crate::schema::group::Group;
use crate::schema::torrent::Torrent;

verus! {

/// Response for the torrent action.
#[derive(Clone, Debug)]
pub struct TorrentResponse {
    /// Release information.
    pub group: Group,
    /// Edition information.
    pub torrent: Torrent,
}

} // verus!
