use vstd::prelude::*;

verus! {

/// A 128-bit capability identifier, as two 64-bit halves.
#[derive(Clone, Copy, Debug, PartialEq, Eq, Structural)]
pub struct UnityInterfaceGuid {
    pub high: u64,
    pub low: u64,
}

impl UnityInterfaceGuid {
    /// Builds an identifier from its high and low halves.
    pub fn new(high: u64, low: u64) -> (r: UnityInterfaceGuid)
        ensures
            r.high == high,
            r.low == low,
    {
        UnityInterfaceGuid { high, low }
    }
}

/// High half of the logging capability's identifier.
pub const LOGGER_GUID_HIGH: u64 = 0x9E7507FA5B444D5D;

/// Low half of the logging capability's identifier.
pub const LOGGER_GUID_LOW: u64 = 0x92FB979515EA83FC;

/// High half of the profiler capability's identifier.
pub const PROFILER_GUID_HIGH: u64 = 0xB957E0189CB6A30B;

/// Low half of the profiler capability's identifier.
pub const PROFILER_GUID_LOW: u64 = 0x83CE589AE85B9068;

} // verus!
