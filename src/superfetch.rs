//! The SuperFetch information classes and the envelope that carries a request
//! through the system information query.
use vstd::prelude::*;

verus! {

/// System information class under which SuperFetch requests are made.
pub const SYSTEM_SUPERFETCH_INFORMATION: u32 = 0x4F;

/// Version stamped in every SuperFetch envelope.
pub const SUPERFETCH_VERSION: u32 = 45;

/// Magic stamped in every SuperFetch envelope: the bytes `kuhC`, big-endian.
pub const SUPERFETCH_MAGIC: u32 = 0x6B75_6843;

/// The SuperFetch information classes, in the kernel's order from 1.
#[derive(Debug, Clone, Copy, PartialEq, Eq, Structural)]
pub enum SUPERFETCH_INFORMATION_CLASS {
    SuperfetchRetrieveTrace,
    SuperfetchSystemParameters,
    SuperfetchLogEvent,
    SuperfetchGenerateTrace,
    SuperfetchPrefetch,
    SuperfetchPfnQuery,
    SuperfetchPfnSetPriority,
    SuperfetchPrivSourceQuery,
    SuperfetchSequenceNumberQuery,
    SuperfetchScenarioPhase,
    SuperfetchWorkerPriority,
    SuperfetchScenarioQuery,
    SuperfetchScenarioPrefetch,
    SuperfetchRobustnessControl,
    SuperfetchTimeControl,
    SuperfetchMemoryListQuery,
    SuperfetchMemoryRangesQuery,
    SuperfetchTracingControl,
    SuperfetchTrimWhileAgingControl,
    SuperfetchInformationMax,
}

impl SUPERFETCH_INFORMATION_CLASS {
    /// The number the kernel knows the class by.
    pub open spec fn spec_code(self) -> u32 {
        match self {
            SUPERFETCH_INFORMATION_CLASS::SuperfetchRetrieveTrace => 1,
            SUPERFETCH_INFORMATION_CLASS::SuperfetchSystemParameters => 2,
            SUPERFETCH_INFORMATION_CLASS::SuperfetchLogEvent => 3,
            SUPERFETCH_INFORMATION_CLASS::SuperfetchGenerateTrace => 4,
            SUPERFETCH_INFORMATION_CLASS::SuperfetchPrefetch => 5,
            SUPERFETCH_INFORMATION_CLASS::SuperfetchPfnQuery => 6,
            SUPERFETCH_INFORMATION_CLASS::SuperfetchPfnSetPriority => 7,
            SUPERFETCH_INFORMATION_CLASS::SuperfetchPrivSourceQuery => 8,
            SUPERFETCH_INFORMATION_CLASS::SuperfetchSequenceNumberQuery => 9,
            SUPERFETCH_INFORMATION_CLASS::SuperfetchScenarioPhase => 10,
            SUPERFETCH_INFORMATION_CLASS::SuperfetchWorkerPriority => 11,
            SUPERFETCH_INFORMATION_CLASS::SuperfetchScenarioQuery => 12,
            SUPERFETCH_INFORMATION_CLASS::SuperfetchScenarioPrefetch => 13,
            SUPERFETCH_INFORMATION_CLASS::SuperfetchRobustnessControl => 14,
            SUPERFETCH_INFORMATION_CLASS::SuperfetchTimeControl => 15,
            SUPERFETCH_INFORMATION_CLASS::SuperfetchMemoryListQuery => 16,
            SUPERFETCH_INFORMATION_CLASS::SuperfetchMemoryRangesQuery => 17,
            SUPERFETCH_INFORMATION_CLASS::SuperfetchTracingControl => 18,
            SUPERFETCH_INFORMATION_CLASS::SuperfetchTrimWhileAgingControl => 19,
            SUPERFETCH_INFORMATION_CLASS::SuperfetchInformationMax => 20,
        }
    }

    /// The number the kernel knows the class by.
    #[verifier::when_used_as_spec(spec_code)]
    pub fn code(self) -> (r: u32)
        ensures
            r == self.spec_code(),
    {
        match self {
            SUPERFETCH_INFORMATION_CLASS::SuperfetchRetrieveTrace => 1,
            SUPERFETCH_INFORMATION_CLASS::SuperfetchSystemParameters => 2,
            SUPERFETCH_INFORMATION_CLASS::SuperfetchLogEvent => 3,
            SUPERFETCH_INFORMATION_CLASS::SuperfetchGenerateTrace => 4,
            SUPERFETCH_INFORMATION_CLASS::SuperfetchPrefetch => 5,
            SUPERFETCH_INFORMATION_CLASS::SuperfetchPfnQuery => 6,
            SUPERFETCH_INFORMATION_CLASS::SuperfetchPfnSetPriority => 7,
            SUPERFETCH_INFORMATION_CLASS::SuperfetchPrivSourceQuery => 8,
            SUPERFETCH_INFORMATION_CLASS::SuperfetchSequenceNumberQuery => 9,
            SUPERFETCH_INFORMATION_CLASS::SuperfetchScenarioPhase => 10,
            SUPERFETCH_INFORMATION_CLASS::SuperfetchWorkerPriority => 11,
            SUPERFETCH_INFORMATION_CLASS::SuperfetchScenarioQuery => 12,
            SUPERFETCH_INFORMATION_CLASS::SuperfetchScenarioPrefetch => 13,
            SUPERFETCH_INFORMATION_CLASS::SuperfetchRobustnessControl => 14,
            SUPERFETCH_INFORMATION_CLASS::SuperfetchTimeControl => 15,
            SUPERFETCH_INFORMATION_CLASS::SuperfetchMemoryListQuery => 16,
            SUPERFETCH_INFORMATION_CLASS::SuperfetchMemoryRangesQuery => 17,
            SUPERFETCH_INFORMATION_CLASS::SuperfetchTracingControl => 18,
            SUPERFETCH_INFORMATION_CLASS::SuperfetchTrimWhileAgingControl => 19,
            SUPERFETCH_INFORMATION_CLASS::SuperfetchInformationMax => 20,
        }
    }
}

/// The envelope of a SuperFetch request, without the address of the caller's
/// buffer, which the caller adds when it makes the call.
#[derive(Debug, Clone, Copy, PartialEq, Eq, Structural)]
pub struct SuperfetchInformation {
    pub version: u32,
    pub magic: u32,
    pub info_class: u32,
    pub length: u32,
}

/// The envelope for a request of class `info_class` over a buffer of `length`
/// bytes.
pub fn superfetch_information(info_class: SUPERFETCH_INFORMATION_CLASS, length: u32) -> (r:
    SuperfetchInformation)
    ensures
        r.version == SUPERFETCH_VERSION,
        r.magic == SUPERFETCH_MAGIC,
        r.info_class == info_class.spec_code(),
        r.length == length,
{
    SuperfetchInformation {
        version: SUPERFETCH_VERSION,
        magic: SUPERFETCH_MAGIC,
        info_class: info_class.code(),
        length,
    }
}

} // verus!
