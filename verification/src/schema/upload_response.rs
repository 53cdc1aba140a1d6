use vstd::prelude::*;

verus! {

/// Response for the upload action.
///
/// The two deployments disagree on the casing of the id fields, so both
/// spellings are carried and the getters prefer the lower-case one.
#[allow(non_snake_case)]
#[derive(Clone, Debug)]
pub struct UploadResponse {
    pub private: bool,
    pub source: bool,
    pub request_id: Option<u32>,
    pub torrentid: Option<u32>,
    pub groupid: Option<u32>,
    pub torrentId: Option<u32>,
    pub groupId: Option<u32>,
}

/// The first id present, or zero when neither spelling carries one.
pub open spec fn preferred_id(lower: Option<u32>, camel: Option<u32>) -> u32 {
    match lower {
        Some(id) => id,
        None => match camel {
            Some(id) => id,
            None => 0,
        },
    }
}

impl UploadResponse {
    /// The id of the uploaded torrent, whichever spelling the deployment
    /// used; zero when the response carried none.
    pub fn get_torrent_id(&self) -> (r: u32)
        ensures
            r == preferred_id(self.torrentid, self.torrentId),
    {
        match self.torrentid {
            Some(id) => id,
            None => match self.torrentId {
                Some(id) => id,
                None => 0,
            },
        }
    }

    /// The id of the group the upload landed in, whichever spelling the
    /// deployment used; zero when the response carried none.
    pub fn get_group_id(&self) -> (r: u32)
        ensures
            r == preferred_id(self.groupid, self.groupId),
    {
        match self.groupid {
            Some(id) => id,
            None => match self.groupId {
                Some(id) => id,
                None => 0,
            },
        }
    }
}

} // verus!
