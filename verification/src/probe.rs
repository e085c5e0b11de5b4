//! How a target is probed, and how often.

use vstd::prelude::*;

verus! {

/// The settings of the probe loop.
///
/// A probe is an echo request that carries `payload`, is sent with time to
/// live `ttl`, and is given `timeout_secs` seconds to be answered. After each
/// probe the monitor waits `interval_secs` seconds, or until it is asked to
/// stop.
#[derive(Debug, PartialEq, Eq)]
pub struct ProbeSettings {
    pub timeout_secs: u64,
    pub interval_secs: u64,
    pub ttl: u8,
    pub dont_fragment: bool,
    pub payload: Vec<u8>,
}

impl ProbeSettings {
    /// The settings that every monitor uses unless it is told otherwise: a
    /// second for the answer, a second between probes, 128 hops, no
    /// fragmenting, and the four bytes 1, 2, 3, 4 as payload.
    pub open spec fn is_standard(self) -> bool {
        &&& self.timeout_secs == 1
        &&& self.interval_secs == 1
        &&& self.ttl == 128
        &&& self.dont_fragment
        &&& self.payload@ == seq![1u8, 2u8, 3u8, 4u8]
    }

    pub fn standard() -> (settings: ProbeSettings)
        ensures
            settings.is_standard(),
    {
        let mut payload: Vec<u8> = Vec::new();
        payload.push(1);
        payload.push(2);
        payload.push(3);
        payload.push(4);
        assert(payload@ =~= seq![1u8, 2u8, 3u8, 4u8]);
        ProbeSettings { timeout_secs: 1, interval_secs: 1, ttl: 128, dont_fragment: true, payload }
    }
}

} // verus!
