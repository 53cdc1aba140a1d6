use vstd::prelude::*;

verus! {

/// A request rate: how many requests are allowed within a sliding window.
///
/// The window length is carried as whole milliseconds so that the limiter's
/// arithmetic stays on plain integers.
pub struct Rate {
    /// Number of requests allowed per duration.
    pub num: usize,
    /// Duration before the limit resets, in milliseconds.
    pub per: u64,
}

impl Rate {
    /// A rate is usable when it admits at least one request per window;
    /// a zero capacity would make every caller wait forever.
    pub open spec fn wf(self) -> bool {
        self.num > 0
    }
}

} // verus!
