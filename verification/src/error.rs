use vstd::prelude::*;

verus! {

/// The failure kinds the handler can report to its caller.
///
/// Every function of the library that can fail returns one of these; the
/// host binding maps them onto the runtime's own error codes. Errors the
/// external allocator reports during provisioning are propagated by the
/// host binding directly and never pass through this type.
#[derive(Clone, Copy, Debug, PartialEq, Eq, Structural)]
pub enum CounterError {
    /// The instruction buffer is empty, carries an unknown discriminant,
    /// or is too short for the payload its discriminant announces.
    InvalidInstructionData,
    /// Fewer accounts were supplied than the decoded command requires.
    NotEnoughAccountKeys,
    /// The record account is not owned by the invoking program where
    /// ownership is required.
    IncorrectProgramId,
    /// The record bytes do not decode as a stored counter, or a transition
    /// would overflow or underflow the counter.
    InvalidAccountData,
}

} // verus!
