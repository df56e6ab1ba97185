use crate::error::CounterError;
use vstd::bytes::{spec_u64_from_le_bytes, u64_from_le_bytes};
use vstd::prelude::*;
use vstd::slice::{slice_index_get, slice_subrange};

verus! {

/// A decoded command: the closed set of transitions the handler performs.
#[derive(Clone, Copy, Debug, PartialEq, Eq, Structural)]
pub enum CounterInstruction {
    /// Provision the record account and store `init_value` in it.
    InitializeCounter { init_value: u64 },
    /// Add one to the stored counter.
    Increment,
    /// Subtract one from the stored counter.
    Decrement,
}

/// What an instruction buffer decodes to, if anything.
///
/// The first byte is the discriminant: 0 selects Initialize and must be
/// followed by at least eight payload bytes, read as a little-endian value;
/// 1 selects Increment and 2 selects Decrement. Any other discriminant, an
/// empty buffer, or a truncated Initialize payload decodes to nothing.
/// Bytes after a recognized payload are deliberately ignored: the wire
/// format is permissive about trailing data.
pub open spec fn spec_unpack(input: Seq<u8>) -> Option<CounterInstruction> {
    if input.len() == 0 {
        None
    } else if input[0] == 0u8 {
        if input.len() >= 9 {
            Some(CounterInstruction::InitializeCounter {
                init_value: spec_u64_from_le_bytes(input.subrange(1, 9)),
            })
        } else {
            None
        }
    } else if input[0] == 1u8 {
        Some(CounterInstruction::Increment)
    } else if input[0] == 2u8 {
        Some(CounterInstruction::Decrement)
    } else {
        None
    }
}

impl CounterInstruction {
    /// Decodes an untrusted instruction buffer into a command, or reports
    /// `InvalidInstructionData` exactly when the buffer decodes to nothing.
    pub fn unpack(input: &[u8]) -> (r: Result<CounterInstruction, CounterError>)
        ensures
            match r {
                Ok(ins) => spec_unpack(input@) == Some(ins),
                Err(e) => {
                    &&& spec_unpack(input@) is None
                    &&& e == CounterError::InvalidInstructionData
                },
            },
    {
        if input.len() == 0 {
            return Err(CounterError::InvalidInstructionData);
        }
        let variant: u8 = *slice_index_get(input, 0);
        match variant {
            0u8 => {
                if input.len() < 9 {
                    return Err(CounterError::InvalidInstructionData);
                }
                let payload: &[u8] = slice_subrange(input, 1, 9);
                Ok(CounterInstruction::InitializeCounter { init_value: u64_from_le_bytes(payload) })
            },
            1u8 => Ok(CounterInstruction::Increment),
            2u8 => Ok(CounterInstruction::Decrement),
            _ => Err(CounterError::InvalidInstructionData),
        }
    }
}

} // verus!
