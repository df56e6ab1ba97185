use crate::error::CounterError;
use vstd::bytes::{
    lemma_auto_spec_u64_to_from_le_bytes, spec_u64_from_le_bytes, spec_u64_to_le_bytes,
    u64_from_le_bytes, u64_to_le_bytes,
};
use vstd::prelude::*;

verus! {

/// The persistent record: one unsigned 64-bit counter, stored as exactly
/// eight little-endian bytes with no header or version tag.
#[derive(Clone, Copy, Debug, PartialEq, Eq, Structural)]
pub struct CounterAccount {
    pub counter: u64,
}

/// The exact byte image of a stored counter: eight little-endian bytes.
pub open spec fn spec_encode(c: CounterAccount) -> Seq<u8> {
    spec_u64_to_le_bytes(c.counter)
}

/// What record storage decodes to: a counter exactly when the storage is
/// eight bytes long; any other length is corruption.
pub open spec fn spec_decode(bytes: Seq<u8>) -> Option<CounterAccount> {
    if bytes.len() == 8 {
        Some(CounterAccount { counter: spec_u64_from_le_bytes(bytes) })
    } else {
        None
    }
}

impl CounterAccount {
    /// Reads a stored counter back from record storage, or reports
    /// `InvalidAccountData` exactly when the storage does not decode.
    pub fn decode(bytes: &[u8]) -> (r: Result<CounterAccount, CounterError>)
        ensures
            match r {
                Ok(c) => spec_decode(bytes@) == Some(c),
                Err(e) => {
                    &&& spec_decode(bytes@) is None
                    &&& e == CounterError::InvalidAccountData
                },
            },
    {
        if bytes.len() == 8 {
            Ok(CounterAccount { counter: u64_from_le_bytes(bytes) })
        } else {
            Err(CounterError::InvalidAccountData)
        }
    }

    /// Writes this counter over the first eight bytes of `out`, leaving any
    /// bytes past the eighth untouched; fails, writing nothing, exactly when
    /// `out` is too short to hold a record.
    pub fn encode(&self, out: &mut Vec<u8>) -> (r: Result<(), CounterError>)
        ensures
            match r {
                Ok(()) => {
                    &&& old(out)@.len() >= 8
                    &&& final(out)@ == spec_encode(*self) + old(out)@.skip(8)
                },
                Err(e) => {
                    &&& old(out)@.len() < 8
                    &&& e == CounterError::InvalidAccountData
                    &&& final(out)@ == old(out)@
                },
            },
    {
        if out.len() < 8 {
            return Err(CounterError::InvalidAccountData);
        }
        let bytes: Vec<u8> = u64_to_le_bytes(self.counter);
        let mut i: usize = 0;
        while i < 8
            invariant
                i <= 8,
                out@.len() == old(out)@.len(),
                old(out)@.len() >= 8,
                bytes@ == spec_u64_to_le_bytes(self.counter),
                bytes@.len() == 8,
                forall|j: int| 0 <= j < i ==> out@[j] == bytes@[j],
                forall|j: int| i <= j < out@.len() ==> out@[j] == old(out)@[j],
            decreases 8 - i,
        {
            let b: u8 = bytes[i];
            out[i] = b;
            i = i + 1;
        }
        proof {
            assert(out@ =~= spec_encode(*self) + old(out)@.skip(8));
        }
        Ok(())
    }
}

/// Round-trip law of the codec: decoding the encoding of any representable
/// counter yields that counter back, for every value of it.
pub proof fn lemma_codec_round_trip(c: CounterAccount)
    ensures
        spec_encode(c).len() == 8,
        spec_decode(spec_encode(c)) == Some(c),
{
    lemma_auto_spec_u64_to_from_le_bytes();
}

} // verus!
