//! Errors raised by the selection engine.

use vstd::prelude::*;

verus! {

/// An error originating in the selection engine.
///
/// Configuration errors are fatal and happen only at construction time; a
/// missing account index is a per-event, recoverable condition.
#[derive(Debug, Clone)]
pub enum Error {
    /// A field of the account-selector configuration held an address string
    /// that does not parse; the offending string is carried along.
    AccountConfig(&'static str, String),
    /// A field of the instruction-selector configuration held an address
    /// string that does not parse; the offending string is carried along.
    InstructionConfig(&'static str, String),
    /// An instruction referenced an account index absent from the enclosing
    /// transaction's account table.
    InstructionMissingAccount(u8),
}

} // verus!
