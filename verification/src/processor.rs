use crate::account::{bytes_eq, same_except_data, AccountInfo};
use crate::error::CounterError;
use crate::instruction::{spec_unpack, CounterInstruction};
use crate::state::{lemma_codec_round_trip, spec_decode, spec_encode, CounterAccount};
use vstd::prelude::*;

verus! {

/// Bytes of persistent storage a counter record occupies.
pub const RECORD_SPACE: u64 = 8;

/// The outside work Initialize asks of the host: have the external
/// allocator create the record account (the first account of the list) with
/// `space` bytes of zero-filled storage, funded by the payer (the second
/// account) at the oracle's minimum balance for that size, and owned by the
/// invoking program. Once that call succeeds the host completes the
/// transition with [`process_initialize_counter`] and `init_value`.
#[derive(Clone, Copy, Debug, PartialEq, Eq, Structural)]
pub struct InitializePlan {
    /// Bytes of storage to allocate for the record account.
    pub space: u64,
    /// The value to store once the record account exists.
    pub init_value: u64,
}

/// One increment step at the byte level: decode the record, add one with a
/// carry check, encode the result. Storage that does not decode, or a
/// counter already at the largest value, is a data error.
pub open spec fn spec_increment_step(data: Seq<u8>) -> Result<Seq<u8>, CounterError> {
    match spec_decode(data) {
        Some(c) => {
            if c.counter < u64::MAX {
                Ok(spec_encode(CounterAccount { counter: (c.counter + 1) as u64 }))
            } else {
                Err(CounterError::InvalidAccountData)
            }
        },
        None => Err(CounterError::InvalidAccountData),
    }
}

/// One decrement step at the byte level: decode the record, subtract one
/// with a borrow check, encode the result. Storage that does not decode, or
/// a counter already at zero, is a data error.
pub open spec fn spec_decrement_step(data: Seq<u8>) -> Result<Seq<u8>, CounterError> {
    match spec_decode(data) {
        Some(c) => {
            if c.counter > 0 {
                Ok(spec_encode(CounterAccount { counter: (c.counter - 1) as u64 }))
            } else {
                Err(CounterError::InvalidAccountData)
            }
        },
        None => Err(CounterError::InvalidAccountData),
    }
}

/// The shared contract of the two mutating transitions. The record account
/// must be present and owned by the invoking program; on success exactly
/// the record's storage changes, to `stepped` of its old bytes; on any
/// failure the account list is left untouched.
pub open spec fn mutate_record_post(
    pid: Seq<u8>,
    pre: Seq<AccountInfo>,
    post: Seq<AccountInfo>,
    r: Result<(), CounterError>,
    stepped: Result<Seq<u8>, CounterError>,
) -> bool {
    if pre.len() == 0 {
        &&& r == Err::<(), CounterError>(CounterError::NotEnoughAccountKeys)
        &&& post == pre
    } else if pre[0].owner@ != pid {
        &&& r == Err::<(), CounterError>(CounterError::IncorrectProgramId)
        &&& post == pre
    } else {
        match stepped {
            Ok(d) => {
                &&& r == Ok::<(), CounterError>(())
                &&& post.len() == pre.len()
                &&& same_except_data(pre[0], post[0], d)
                &&& forall|i: int| 1 <= i < pre.len() ==> post[i] == pre[i]
            },
            Err(e) => {
                &&& r == Err::<(), CounterError>(e)
                &&& post == pre
            },
        }
    }
}

/// Adds one to the counter stored in the record account.
///
/// Only a record owned by the invoking program may be mutated; this is the
/// whole authority model — no signature is demanded of the record account.
pub fn increment_counter(program_id: &Vec<u8>, accounts: &mut Vec<AccountInfo>) -> (r: Result<
    (),
    CounterError,
>)
    ensures
        mutate_record_post(
            program_id@,
            old(accounts)@,
            final(accounts)@,
            r,
            spec_increment_step(old(accounts)@[0].data@),
        ),
{
    if accounts.len() == 0 {
        return Err(CounterError::NotEnoughAccountKeys);
    }
    let owner_ok = bytes_eq(&accounts[0].owner, program_id);
    if !owner_ok {
        return Err(CounterError::IncorrectProgramId);
    }
    let stored = CounterAccount::decode(accounts[0].data.as_slice());
    let c = match stored {
        Ok(c) => c,
        Err(e) => { return Err(e) },
    };
    if c.counter == u64::MAX {
        return Err(CounterError::InvalidAccountData);
    }
    let updated = CounterAccount { counter: c.counter + 1 };
    let mut record = accounts.remove(0);
    let enc = updated.encode(&mut record.data);
    accounts.insert(0, record);
    match enc {
        Ok(()) => {},
        Err(e) => { return Err(e) },
    }
    proof {
        assert(final(accounts)@[0].data@ =~= spec_encode(updated));
    }
    Ok(())
}

/// Subtracts one from the counter stored in the record account, under the
/// same ownership rule as [`increment_counter`].
pub fn decrement_counter(program_id: &Vec<u8>, accounts: &mut Vec<AccountInfo>) -> (r: Result<
    (),
    CounterError,
>)
    ensures
        mutate_record_post(
            program_id@,
            old(accounts)@,
            final(accounts)@,
            r,
            spec_decrement_step(old(accounts)@[0].data@),
        ),
{
    if accounts.len() == 0 {
        return Err(CounterError::NotEnoughAccountKeys);
    }
    let owner_ok = bytes_eq(&accounts[0].owner, program_id);
    if !owner_ok {
        return Err(CounterError::IncorrectProgramId);
    }
    let stored = CounterAccount::decode(accounts[0].data.as_slice());
    let c = match stored {
        Ok(c) => c,
        Err(e) => { return Err(e) },
    };
    if c.counter == 0 {
        return Err(CounterError::InvalidAccountData);
    }
    let updated = CounterAccount { counter: c.counter - 1 };
    let mut record = accounts.remove(0);
    let enc = updated.encode(&mut record.data);
    accounts.insert(0, record);
    match enc {
        Ok(()) => {},
        Err(e) => { return Err(e) },
    }
    proof {
        assert(final(accounts)@[0].data@ =~= spec_encode(updated));
    }
    Ok(())
}

/// Completes Initialize after the allocator has created the record account:
/// writes `init_value` over the first eight bytes of the record's storage.
///
/// The three Initialize accounts — record, payer, allocator — must still be
/// present; storage shorter than a record is a data error and nothing is
/// written. Ownership is deliberately not checked here: the record belongs
/// to the program only once provisioning has run, and the allocator itself
/// guarantees who the new owner is.
pub fn process_initialize_counter(accounts: &mut Vec<AccountInfo>, init_value: u64) -> (r: Result<
    (),
    CounterError,
>)
    ensures
        match r {
            Ok(()) => {
                &&& old(accounts)@.len() >= 3
                &&& old(accounts)@[0].data@.len() >= 8
                &&& final(accounts)@.len() == old(accounts)@.len()
                &&& same_except_data(
                    old(accounts)@[0],
                    final(accounts)@[0],
                    spec_encode(CounterAccount { counter: init_value }) + old(
                        accounts,
                    )@[0].data@.skip(8),
                )
                &&& forall|i: int|
                    1 <= i < old(accounts)@.len() ==> final(accounts)@[i] == old(accounts)@[i]
            },
            Err(CounterError::NotEnoughAccountKeys) => {
                &&& old(accounts)@.len() < 3
                &&& final(accounts)@ == old(accounts)@
            },
            Err(CounterError::InvalidAccountData) => {
                &&& old(accounts)@.len() >= 3
                &&& old(accounts)@[0].data@.len() < 8
                &&& final(accounts)@ == old(accounts)@
            },
            Err(_) => false,
        },
{
    if accounts.len() < 3 {
        return Err(CounterError::NotEnoughAccountKeys);
    }
    if accounts[0].data.len() < 8 {
        return Err(CounterError::InvalidAccountData);
    }
    let state = CounterAccount { counter: init_value };
    let mut record = accounts.remove(0);
    let enc = state.encode(&mut record.data);
    accounts.insert(0, record);
    match enc {
        Ok(()) => Ok(()),
        Err(e) => Err(e),
    }
}

/// The single entry point: decodes the instruction buffer and applies the
/// selected transition.
///
/// Increment and Decrement run to completion here. Initialize is validated
/// here — the record, payer and allocator accounts must be present — but
/// the allocation itself is the host's outside work, so a successful
/// Initialize returns the [`InitializePlan`] for the host to carry out, the
/// account list untouched; the other transitions return nothing further.
/// The first failure aborts the invocation with the account list untouched.
pub fn process_instruction(
    program_id: &Vec<u8>,
    accounts: &mut Vec<AccountInfo>,
    instruction_data: &[u8],
) -> (r: Result<Option<InitializePlan>, CounterError>)
    ensures
        match spec_unpack(instruction_data@) {
            Some(CounterInstruction::InitializeCounter { init_value }) => {
                &&& final(accounts)@ == old(accounts)@
                &&& if old(accounts)@.len() < 3 {
                    r == Err::<Option<InitializePlan>, CounterError>(
                        CounterError::NotEnoughAccountKeys,
                    )
                } else {
                    r == Ok::<Option<InitializePlan>, CounterError>(
                        Some(InitializePlan { space: RECORD_SPACE, init_value }),
                    )
                }
            },
            Some(CounterInstruction::Increment) => match r {
                Ok(p) => {
                    &&& p is None
                    &&& mutate_record_post(
                        program_id@,
                        old(accounts)@,
                        final(accounts)@,
                        Ok(()),
                        spec_increment_step(old(accounts)@[0].data@),
                    )
                },
                Err(e) => mutate_record_post(
                    program_id@,
                    old(accounts)@,
                    final(accounts)@,
                    Err(e),
                    spec_increment_step(old(accounts)@[0].data@),
                ),
            },
            Some(CounterInstruction::Decrement) => match r {
                Ok(p) => {
                    &&& p is None
                    &&& mutate_record_post(
                        program_id@,
                        old(accounts)@,
                        final(accounts)@,
                        Ok(()),
                        spec_decrement_step(old(accounts)@[0].data@),
                    )
                },
                Err(e) => mutate_record_post(
                    program_id@,
                    old(accounts)@,
                    final(accounts)@,
                    Err(e),
                    spec_decrement_step(old(accounts)@[0].data@),
                ),
            },
            None => {
                &&& r == Err::<Option<InitializePlan>, CounterError>(
                    CounterError::InvalidInstructionData,
                )
                &&& final(accounts)@ == old(accounts)@
            },
        },
{
    let instruction = match CounterInstruction::unpack(instruction_data) {
        Ok(ins) => ins,
        Err(e) => { return Err(e) },
    };
    match instruction {
        CounterInstruction::InitializeCounter { init_value } => {
            if accounts.len() < 3 {
                return Err(CounterError::NotEnoughAccountKeys);
            }
            Ok(Some(InitializePlan { space: RECORD_SPACE, init_value }))
        },
        CounterInstruction::Increment => match increment_counter(program_id, accounts) {
            Ok(()) => Ok(None),
            Err(e) => Err(e),
        },
        CounterInstruction::Decrement => match decrement_counter(program_id, accounts) {
            Ok(()) => Ok(None),
            Err(e) => Err(e),
        },
    }
}

/// Initializing the record to `v`, then incrementing, stores `v + 1`;
/// decrementing that stores `v` again. The one value left out is the
/// largest one, where the increment itself refuses to overflow.
pub proof fn lemma_increment_then_decrement(v: u64)
    requires
        v < u64::MAX,
    ensures
        spec_increment_step(spec_encode(CounterAccount { counter: v })) == Ok::<
            Seq<u8>,
            CounterError,
        >(spec_encode(CounterAccount { counter: (v + 1) as u64 })),
        spec_decrement_step(spec_encode(CounterAccount { counter: (v + 1) as u64 })) == Ok::<
            Seq<u8>,
            CounterError,
        >(spec_encode(CounterAccount { counter: v })),
{
    lemma_codec_round_trip(CounterAccount { counter: v });
    lemma_codec_round_trip(CounterAccount { counter: (v + 1) as u64 });
}

/// Incrementing a record that stores the largest value fails as a data
/// error; `mutate_record_post` then forces the account list unchanged.
pub proof fn lemma_increment_at_max()
    ensures
        spec_increment_step(spec_encode(CounterAccount { counter: u64::MAX })) == Err::<
            Seq<u8>,
            CounterError,
        >(CounterError::InvalidAccountData),
{
    lemma_codec_round_trip(CounterAccount { counter: u64::MAX });
}

/// Decrementing a record that stores zero fails as a data error;
/// `mutate_record_post` then forces the account list unchanged.
pub proof fn lemma_decrement_at_zero()
    ensures
        spec_decrement_step(spec_encode(CounterAccount { counter: 0 })) == Err::<
            Seq<u8>,
            CounterError,
        >(CounterError::InvalidAccountData),
{
    lemma_codec_round_trip(CounterAccount { counter: 0 });
}

} // verus!
