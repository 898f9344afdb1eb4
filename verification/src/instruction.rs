//! Accept/reject decisions for instruction-execution events.
//!
//! An instruction passes when its target program is allow-listed; when burn
//! screening is active and the target is the token program, only a burn of
//! exactly one unit passes, suppressing the far higher-volume generic token
//! traffic.

use vstd::prelude::*;
use vstd::bytes::spec_u64_from_le_bytes;
use vstd::bytes::u64_from_le_bytes;
use vstd::slice::slice_index_get;
use vstd::slice::slice_subrange;

use crate::config::Instructions;
use crate::error::Error;
use crate::heuristic::Heuristic;
use crate::keys::Pubkey;
use crate::keys::all_keys_wf;
use crate::keys::all_parse;
use crate::keys::contains_key;
use crate::keys::has_key;
use crate::keys::key_eq;
use crate::keys::key_views;
use crate::keys::lemma_has_key_depends_on_views;
use crate::keys::parse_key_list;
use crate::keys::parsed_key;
use crate::keys::token_program_key;
use crate::keys::token_program_pubkey;

verus! {

/// Abstraction over an instruction-execution event.
pub trait InstructionInfo {
    /// The index of the target program in the transaction's account table.
    spec fn program_index_view(&self) -> u8;

    /// The instruction's opcode and argument bytes.
    spec fn data_view(&self) -> Seq<u8>;

    /// The indices of the instruction's input accounts.
    spec fn account_indices_view(&self) -> Seq<u8>;

    /// The index of this instruction's target program.
    fn program_index(&self) -> (r: u8)
        ensures
            r == self.program_index_view(),
    ;

    /// The data contained in this instruction.
    fn data(&self) -> (r: &[u8])
        ensures
            r@ == self.data_view(),
    ;

    /// The indices of this instruction's input accounts.
    fn account_indices(&self) -> (r: &[u8])
        ensures
            r@ == self.account_indices_view(),
    ;
}

/// A compiled instruction: the target program and input accounts as indices
/// into the enclosing transaction's account table, plus the opcode bytes.
#[derive(Debug)]
pub struct Instruction {
    /// Index of the target program in the account table.
    pub program_index: u8,
    /// Indices of the input accounts in the account table.
    pub accounts: Vec<u8>,
    /// The opcode byte and its arguments.
    pub data: Vec<u8>,
}

impl InstructionInfo for Instruction {
    open spec fn program_index_view(&self) -> u8 {
        self.program_index
    }

    open spec fn data_view(&self) -> Seq<u8> {
        self.data@
    }

    open spec fn account_indices_view(&self) -> Seq<u8> {
        self.accounts@
    }

    fn program_index(&self) -> (r: u8) {
        self.program_index
    }

    fn data(&self) -> (r: &[u8]) {
        self.data.as_slice()
    }

    fn account_indices(&self) -> (r: &[u8]) {
        self.accounts.as_slice()
    }
}

/// A payload that burns exactly one unit: the burn opcode followed by the
/// amount 1 as a little-endian 64-bit integer, and nothing else.
pub open spec fn is_unit_burn(data: Seq<u8>) -> bool {
    &&& data.len() == 9
    &&& data[0] == 8
    &&& spec_u64_from_le_bytes(data.subrange(1, 9)) == 1
}

/// Decide whether a payload burns exactly one unit.
pub fn check_unit_burn(data: &[u8]) -> (r: bool)
    ensures
        r == is_unit_burn(data@),
{
    if data.len() != 9 {
        return false;
    }
    if *slice_index_get(data, 0) != 8 {
        return false;
    }
    let amount = u64_from_le_bytes(slice_subrange(data, 1, 9));
    amount == 1
}

/// Accept/reject decisions for instruction-execution events.  The
/// configuration is fixed at construction by
/// [`InstructionSelector::from_config`].
#[derive(Debug)]
pub struct InstructionSelector {
    /// The target programs whose instructions are selected.
    pub programs: Vec<Pubkey>,
    /// The burn-screening flag: statically inapplicable when the token
    /// program is absent from the allow-list.
    pub screen_tokens: Heuristic<bool>,
}

impl InstructionSelector {
    /// All keys held by the selector are well-formed addresses.
    pub open spec fn wf(&self) -> bool {
        all_keys_wf(self.programs@)
    }

    /// Burn screening is applicable and enabled.
    pub open spec fn screen_active(&self) -> bool {
        self.screen_tokens == Heuristic::Used(true)
    }

    /// The full decision for a resolved target program and payload.
    pub open spec fn selects_instruction(&self, pgm: Seq<u8>, data: Seq<u8>) -> bool {
        if !has_key(self.programs@, pgm) {
            false
        } else if self.screen_active() && pgm == token_program_key() {
            is_unit_burn(data)
        } else {
            true
        }
    }

    /// Construct a selector from a configuration block, parsing each
    /// program address; any malformed address is a fatal configuration
    /// error naming the field and the offending string.
    pub fn from_config(config: Instructions) -> (r: Result<InstructionSelector, Error>)
        ensures
            (r is Ok) == all_parse(config.programs@),
            match r {
                Ok(sel) => {
                    &&& sel.wf()
                    &&& sel.programs@.len() == config.programs@.len()
                    &&& forall|i: int|
                        0 <= i < config.programs@.len() ==> parsed_key(config.programs@[i]@)
                            == Some((#[trigger] sel.programs@[i])@)
                    &&& if !has_key(sel.programs@, token_program_key()) {
                        sel.screen_tokens is Unused
                    } else {
                        sel.screen_tokens == Heuristic::Used(!config.all_token_calls)
                    }
                },
                Err(e) => e matches Error::InstructionConfig(field, s) && field@ == "programs"@
                    && parsed_key(s@) is None && exists|i: int|
                    0 <= i < config.programs@.len() && (#[trigger] config.programs@[i])@ == s@,
            },
    {
        let Instructions { programs, all_token_calls } = config;

        let programs = match parse_key_list(&programs) {
            Ok(keys) => keys,
            Err(s) => {
                return Err(Error::InstructionConfig("programs", s));
            },
        };

        // Don't screen token calls if the program filter can never return
        // them.
        let screen_tokens: Heuristic<bool> = if !contains_key(
            &programs,
            &token_program_pubkey(),
        ) {
            Heuristic::Unused
        } else {
            Heuristic::Used(!all_token_calls)
        };

        Ok(InstructionSelector { programs, screen_tokens })
    }

    /// Returns true if this selector will never select anything, letting a
    /// caller skip instruction processing for an entire transaction.
    pub fn is_empty(&self) -> (r: bool)
        ensures
            r == (self.programs@.len() == 0),
    {
        self.programs.len() == 0
    }

    /// Decide whether an instruction with an already-resolved target
    /// program is selected.  Never fails.
    pub fn is_selected(&self, pgm: &Pubkey, data: &[u8]) -> (r: bool)
        ensures
            r == self.selects_instruction(pgm@, data@),
    {
        if !contains_key(&self.programs, pgm) {
            return false;
        }

        let screening = match self.screen_tokens.try_get() {
            Some(s) => *s,
            None => false,
        };
        if screening && key_eq(pgm, &token_program_pubkey()) {
            return check_unit_burn(data);
        }

        true
    }

    /// Decide whether an instruction is selected, resolving its target
    /// program from the enclosing transaction's account table.  Fails with
    /// a missing-account error exactly when the program index is out of
    /// range; the event is then dropped and the stream continues.
    pub fn is_selected_with_keys<I: InstructionInfo>(&self, keys: &Vec<Pubkey>, ins: &I) -> (r:
        Result<bool, Error>)
        ensures
            (r is Ok) == (ins.program_index_view() < keys@.len()),
            match r {
                Ok(b) => ins.program_index_view() < keys@.len() && b == self.selects_instruction(
                    keys@[ins.program_index_view() as int]@,
                    ins.data_view(),
                ),
                Err(e) => e matches Error::InstructionMissingAccount(i) && i
                    == ins.program_index_view(),
            },
    {
        let idx = ins.program_index();
        if (idx as usize) >= keys.len() {
            return Err(Error::InstructionMissingAccount(idx));
        }
        Ok(self.is_selected(&keys[idx as usize], ins.data()))
    }
}

/// With the token program absent from the allow-list, burn screening can
/// never fire: every instruction addressed to a listed program is accepted
/// regardless of its payload's shape.  (Construction then disables the
/// heuristic statically; see `InstructionSelector::from_config`.)
pub proof fn lemma_no_token_program_accepts_all(
    sel: &InstructionSelector,
    pgm: Seq<u8>,
    data: Seq<u8>,
)
    requires
        !has_key(sel.programs@, token_program_key()),
        has_key(sel.programs@, pgm),
    ensures
        sel.selects_instruction(pgm, data),
{
    assert(pgm != token_program_key());
}

/// Instruction decisions are pure: the result is a function of the
/// configuration's mathematical value — the program byte-set and the
/// screening state — the resolved program and the payload alone, so
/// identical inputs always yield identical outputs, across calls and across
/// selector values.
pub proof fn lemma_instruction_decision_pure(
    a: &InstructionSelector,
    b: &InstructionSelector,
    pgm: Seq<u8>,
    data: Seq<u8>,
)
    requires
        key_views(a.programs@) == key_views(b.programs@),
        a.screen_tokens == b.screen_tokens,
    ensures
        a.selects_instruction(pgm, data) == b.selects_instruction(pgm, data),
{
    lemma_has_key_depends_on_views(a.programs@, b.programs@, pgm);
}

} // verus!
