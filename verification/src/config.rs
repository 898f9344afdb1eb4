//! Configuration blocks consumed by the selectors.
//!
//! Address sets arrive as strings and are parsed into fixed-width keys at
//! construction; any parse failure is a fatal startup error.

use vstd::prelude::*;

verus! {

/// Configuration block for the account selector.
#[derive(Debug)]
pub struct Accounts {
    /// The set of account owners to filter by.
    pub owners: Vec<String>,
    /// Account public keys to always select, subject only to the startup
    /// filter.
    pub pubkeys: Vec<String>,
    /// The set of token mints to filter token-program accounts by.
    pub mints: Vec<String>,
    /// How to interpret an event's startup flag: `None` selects all
    /// updates, `Some(true)` only startup updates, `Some(false)` only
    /// live-stream updates.
    pub startup: Option<bool>,
    /// True disables the heuristics that reduce the volume of token-account
    /// updates.  Has no effect if the token program is not in the owners
    /// list.
    pub all_tokens: bool,
}

/// Configuration block for the instruction selector.
#[derive(Debug)]
pub struct Instructions {
    /// The set of target programs to filter by.
    pub programs: Vec<String>,
    /// True disables the heuristics that reduce the volume of token
    /// instructions.  Has no effect if the token program is not in the
    /// programs list.
    pub all_token_calls: bool,
}

/// Worker-thread limits for the host's runtime.
#[derive(Debug, Clone, Copy)]
pub struct Jobs {
    /// The number of worker threads to run.
    pub limit: usize,
    /// The number of blocking threads to allow, defaulting to `limit`.
    pub blocking: Option<usize>,
}

} // verus!
