//! Why a strategy run produced no statistics.
use vstd::prelude::*;

verus! {

/// The reasons a run is abandoned. No run reports partial statistics.
#[derive(Debug, Clone, Copy, PartialEq, Eq, Structural)]
pub enum RunError {
    /// Statistics were asked for over an empty set of samples.
    EmptySampleSet,
    /// A run was asked to perform no writes.
    InvalidWriteCount,
    /// The payload size range holds no size.
    InvalidSizeRange,
    /// The sizes asked for cannot be totalled in 64 bits.
    ByteTotalOverflow,
    /// The sink could not be created or removed.
    ProvisioningFailure,
    /// A physical write to the sink returned an error.
    WriteFailure,
    /// A queue closed, a lock failed or an acknowledgment never came.
    CoordinationFailure,
    /// The run ended before every planned write was confirmed.
    IncompleteRun,
}

} // verus!
