//! A state-transition handler for a single persistent counter stored in an
//! account-based ledger runtime.
//!
//! The library holds everything the handler decides and computes: decoding
//! the instruction buffer, validating the supplied account list, the
//! fixed-layout codec for the stored counter, and the three transitions
//! (initialize, increment, decrement) with checked arithmetic. The host
//! runtime binding — account borrowing, the rent oracle, and the call into
//! the external allocator that creates the record account — lives outside
//! the library and consumes it through plain values.

pub mod account;
pub mod error;
pub mod instruction;
pub mod processor;
pub mod state;
