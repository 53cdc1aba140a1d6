use vstd::prelude::*;

use crate::options::GazelleClientOptions;
use crate::rate::Rate;
use crate::rate_limiter::RateLimiter;

verus! {

/// The number of requests allowed per window when the options do not say.
pub const ALLOWED_REQUESTS_PER_DURATION: usize = 10;

/// The window length in milliseconds when the options do not say.
pub const REQUEST_LIMIT_DURATION: u64 = 10000;

/// Holds the options a client is created from.  The transport around the
/// library builds the HTTP side; the limiter, the only stateful part of the
/// core, is derived here.
pub struct GazelleClientFactory {
    pub options: GazelleClientOptions,
}

impl GazelleClientFactory {
    /// The rate the options ask for, with the factory defaults filled in.
    pub fn rate(&self) -> (r: Rate)
        ensures
            r == self.spec_rate(),
    {
        let num = match self.options.requests_allowed_per_duration {
            Some(n) => n,
            None => ALLOWED_REQUESTS_PER_DURATION,
        };
        let per = match self.options.request_limit_duration {
            Some(d) => d,
            None => REQUEST_LIMIT_DURATION,
        };
        Rate { num, per }
    }

    /// The limiter a new client starts with: empty, at the configured rate.
    ///
    /// A configured capacity of zero would make every call wait forever, so
    /// it is rejected here, at construction, rather than deadlocking later.
    pub fn limiter(&self) -> (r: Option<RateLimiter>)
        ensures
            r is Some <==> self.rate_num() > 0,
            r matches Some(l) ==> l.wf() && l.rate == self.spec_rate() && l.requests@
                =~= Seq::<u64>::empty(),
    {
        let rate = self.rate();
        if rate.num == 0 {
            return None;
        }
        Some(RateLimiter::new(rate.num, rate.per))
    }

    /// The capacity the options ask for, defaults filled in.
    pub open spec fn rate_num(&self) -> int {
        match self.options.requests_allowed_per_duration {
            Some(n) => n as int,
            None => ALLOWED_REQUESTS_PER_DURATION as int,
        }
    }

    /// The rate the options ask for, defaults filled in.
    pub open spec fn spec_rate(&self) -> Rate {
        Rate {
            num: (match self.options.requests_allowed_per_duration {
                Some(n) => n,
                None => ALLOWED_REQUESTS_PER_DURATION,
            }),
            per: (match self.options.request_limit_duration {
                Some(d) => d,
                None => REQUEST_LIMIT_DURATION,
            }),
        }
    }
}

} // verus!
