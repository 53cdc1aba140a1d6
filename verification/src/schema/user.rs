use vstd::prelude::*;

verus! {

/// The personal section of a user profile.
#[derive(Clone, Debug)]
pub struct Personal {
    /// Class.
    pub class: String,
    /// Paranoia number.
    pub paranoia: u8,
    /// Paranoia level.
    pub paranoia_text: String,
    /// Have they donated?
    pub donor: bool,
    /// Have they been warned?
    pub warned: bool,
    /// Are they enabled?
    pub enabled: bool,
    /// Passkey.
    pub passkey: String,
}

/// The community section of a user profile.
#[derive(Clone, Debug)]
pub struct Community {
    /// Number of posts made.
    pub posts: u32,
    /// Number of torrent comments.
    pub torrent_comments: u32,
    /// Number of collages started.
    pub collages_started: u32,
    /// Number of collages contributed to.
    pub collages_contrib: u32,
    /// Number of requests filled.
    pub requests_filled: u32,
    /// Number of requests voted on.
    pub requests_voted: u32,
    /// Number of perfect FLACs uploaded.
    pub perfect_flacs: u32,
    /// Number of torrents uploaded.
    pub uploaded: u32,
    /// Number of unique groups uploaded to.
    pub groups: u32,
    /// Number of seeding torrents.
    pub seeding: u32,
    /// Number of leeching torrents.
    pub leeching: u32,
    /// Number of snatched torrents.
    pub snatched: u32,
    /// Number of users invited.
    pub invited: u32,
}

} // verus!
