use vstd::prelude::*;

verus! {

/// Failure taxonomy for one in-flight decode. Every failure is local to the
/// frame being decoded: the assembler discards its state and resynchronizes
/// on the next call byte.
#[derive(Clone, Copy, Debug, PartialEq, Eq, Structural)]
pub enum DecodeError {
    /// The call byte fails the parity check.
    ParityError,
    /// The call byte matches no known type/broadcast combination.
    UnclassifiedCallError,
    /// The candidate set emptied before the frame completed.
    NoMatchingDefinition,
    /// More than one definition survived finalization: a catalog defect,
    /// not a transient stream error.
    AmbiguousDefinition,
    /// The frame completed but its XOR checksum does not match.
    ChecksumError,
}

} // verus!
