use geyser_selector::account::AccountSelector;
use geyser_selector::config::Accounts;
use geyser_selector::config::Instructions;
use geyser_selector::error::Error;
use geyser_selector::geyser::build_instruction_notify;
use geyser_selector::geyser::AccountUpdate;
use geyser_selector::geyser::InstructionIndex;
use geyser_selector::instruction::Instruction;
use geyser_selector::instruction::InstructionSelector;
use geyser_selector::keys::key_eq;
use geyser_selector::keys::parse_pubkey;
use geyser_selector::keys::token_program_pubkey;
use geyser_selector::keys::Pubkey;
use solana_program::program_pack::Pack;

const TOKEN_PROGRAM: &str = "TokenkegQfeZyiNwAJbNbGKPFXCWuBvf9Ss623VQ5DA";

fn key(byte: u8) -> Pubkey {
    Pubkey::try_from_bytes(vec![byte; 32]).unwrap()
}

fn accounts_config(
    owners: Vec<&str>,
    pubkeys: Vec<&str>,
    mints: Vec<&str>,
    startup: Option<bool>,
    all_tokens: bool,
) -> Accounts {
    Accounts {
        owners: owners.into_iter().map(str::to_owned).collect(),
        pubkeys: pubkeys.into_iter().map(str::to_owned).collect(),
        mints: mints.into_iter().map(str::to_owned).collect(),
        startup,
        all_tokens,
    }
}

/// A token-account record of the exact packed size, with the given mint
/// bytes and amount, zeroed optional-field tags and an initialized state.
fn token_record(mint: &[u8], amount: u64) -> Vec<u8> {
    let mut data = vec![0u8; 165];
    data[0..32].copy_from_slice(mint);
    data[64..72].copy_from_slice(&amount.to_le_bytes());
    data[108] = 1;
    data
}

fn account(owner: &Pubkey, pubkey: &Pubkey, data: Vec<u8>, is_startup: bool) -> AccountUpdate {
    AccountUpdate {
        key: Pubkey::try_from_bytes(pubkey.as_bytes().clone()).unwrap(),
        lamports: 1,
        owner: Pubkey::try_from_bytes(owner.as_bytes().clone()).unwrap(),
        executable: false,
        rent_epoch: 0,
        data,
        write_version: 0,
        slot: 5,
        is_startup,
    }
}

fn token_selector_with_registry(excluded: Vec<Pubkey>) -> AccountSelector {
    let mut sel =
        AccountSelector::from_config(accounts_config(vec![TOKEN_PROGRAM], vec![], vec![], None, false))
            .unwrap();
    assert!(sel.screen_token_registry());
    sel.init_token_registry(excluded);
    sel
}

#[test]
fn excluded_mint_singleton_is_rejected() {
    let mint_a = key(11);
    let sel = token_selector_with_registry(vec![Pubkey::try_from_bytes(
        mint_a.as_bytes().clone(),
    )
    .unwrap()]);
    let token_program = token_program_pubkey();
    let acct = account(&token_program, &key(50), token_record(mint_a.as_bytes(), 1), false);
    assert!(!sel.is_selected(&acct, false));
}

#[test]
fn unlisted_mint_singleton_is_accepted() {
    let mint_a = key(11);
    let mint_b = key(12);
    let sel = token_selector_with_registry(vec![Pubkey::try_from_bytes(
        mint_a.as_bytes().clone(),
    )
    .unwrap()]);
    let token_program = token_program_pubkey();
    let acct = account(&token_program, &key(50), token_record(mint_b.as_bytes(), 1), false);
    assert!(sel.is_selected(&acct, false));
}

#[test]
fn multi_unit_holding_is_rejected() {
    let mint_b = key(12);
    let sel = token_selector_with_registry(vec![]);
    let token_program = token_program_pubkey();
    let acct = account(&token_program, &key(50), token_record(mint_b.as_bytes(), 2), false);
    assert!(!sel.is_selected(&acct, false));
}

#[test]
fn startup_policy_precedes_pubkey_bypass() {
    // Startup policy: only-non-startup; the account's pubkey is explicitly
    // allow-listed, but the event carries the startup flag.
    let x = TOKEN_PROGRAM; // any valid base-58 string works as a pubkey
    let sel = AccountSelector::from_config(accounts_config(
        vec![],
        vec![x],
        vec![],
        Some(false),
        false,
    ))
    .unwrap();
    let listed = token_program_pubkey();
    let acct = account(&key(7), &listed, vec![], true);
    assert!(!sel.is_selected(&acct, true));
    // With the matching flag, the bypass applies even though no owner is
    // listed.
    let acct = account(&key(7), &listed, vec![], false);
    assert!(sel.is_selected(&acct, false));
}

#[test]
fn account_decision_is_pure() {
    let sel = token_selector_with_registry(vec![]);
    let token_program = token_program_pubkey();
    let acct = account(&token_program, &key(50), token_record(&[9u8; 32], 1), false);
    let first = sel.is_selected(&acct, false);
    let second = sel.is_selected(&acct, false);
    assert_eq!(first, second);
}

#[test]
fn off_size_token_record_is_not_a_token_account() {
    // One byte shorter and one byte longer than the exact record size: the
    // exclusion heuristic cannot read the record, so a would-be multi-unit
    // holding degrades to a plain owner-listed account and is accepted.
    let sel = token_selector_with_registry(vec![]);
    let token_program = token_program_pubkey();
    for len in [164usize, 166] {
        let mut data = token_record(&[9u8; 32], 2);
        data.resize(len, 0);
        let acct = account(&token_program, &key(50), data, false);
        assert!(sel.is_selected(&acct, false), "length {len} must degrade, not fail");
    }
}

#[test]
fn owner_filter_rejects_unlisted_owner() {
    let sel = token_selector_with_registry(vec![]);
    let acct = account(&key(77), &key(50), vec![], false);
    assert!(!sel.is_selected(&acct, false));
}

#[test]
fn mint_allow_list_accepts_unowned_token_account() {
    // The mint allow-list accepts a token account even when its owner is
    // not listed.
    let mint = TOKEN_PROGRAM;
    let sel =
        AccountSelector::from_config(accounts_config(vec![], vec![], vec![mint], None, false))
            .unwrap();
    let mint_key = token_program_pubkey();
    let token_program = token_program_pubkey();
    let acct = account(&token_program, &key(50), token_record(mint_key.as_bytes(), 3), false);
    assert!(sel.is_selected(&acct, false));
}

#[test]
fn malformed_owner_string_is_a_config_error() {
    let err = AccountSelector::from_config(accounts_config(
        vec!["definitely not base58!"],
        vec![],
        vec![],
        None,
        false,
    ))
    .unwrap_err();
    match err {
        Error::AccountConfig(field, s) => {
            assert_eq!(field, "owners");
            assert_eq!(s, "definitely not base58!");
        },
        other => panic!("wrong error: {other:?}"),
    }
}

#[test]
fn registry_statically_disabled_without_token_owner() {
    let sel = AccountSelector::from_config(accounts_config(
        vec![TOKEN_PROGRAM],
        vec![],
        vec![],
        None,
        true, // all_tokens disables the exclusion heuristic
    ))
    .unwrap();
    assert!(!sel.screen_token_registry());
    let sel = AccountSelector::from_config(accounts_config(vec![], vec![], vec![], None, false))
        .unwrap();
    assert!(!sel.screen_token_registry());
}

#[test]
fn unit_burn_screening_on_token_program() {
    let sel = InstructionSelector::from_config(Instructions {
        programs: vec![TOKEN_PROGRAM.to_owned()],
        all_token_calls: false,
    })
    .unwrap();
    let token = token_program_pubkey();

    let mut burn_one = vec![8u8];
    burn_one.extend_from_slice(&1u64.to_le_bytes());
    assert!(sel.is_selected(&token, &burn_one));

    let mut burn_two = vec![8u8];
    burn_two.extend_from_slice(&2u64.to_le_bytes());
    assert!(!sel.is_selected(&token, &burn_two));

    let transfer = vec![3u8, 1, 0, 0, 0, 0, 0, 0, 0];
    assert!(!sel.is_selected(&token, &transfer));
}

#[test]
fn screening_statically_disabled_without_token_program() {
    // The allow-list names a program other than the token program: every
    // instruction addressed to it passes, whatever the payload's shape.
    let other = "11111111111111111111111111111111";
    let sel = InstructionSelector::from_config(Instructions {
        programs: vec![other.to_owned()],
        all_token_calls: false,
    })
    .unwrap();
    let pgm = parse_pubkey(other).unwrap();
    assert!(sel.is_selected(&pgm, &[]));
    assert!(sel.is_selected(&pgm, &[3, 1]));
    assert!(sel.is_selected(&pgm, &[8, 0, 0, 0, 0, 0, 0, 0, 9]));
    assert!(!sel.is_selected(&token_program_pubkey(), &[8]));
}

#[test]
fn all_token_calls_disables_burn_screening() {
    let sel = InstructionSelector::from_config(Instructions {
        programs: vec![TOKEN_PROGRAM.to_owned()],
        all_token_calls: true,
    })
    .unwrap();
    let token = token_program_pubkey();
    assert!(sel.is_selected(&token, &[3u8, 1, 0, 0, 0, 0, 0, 0, 0]));
}

#[test]
fn missing_program_index_is_reported() {
    let sel = InstructionSelector::from_config(Instructions {
        programs: vec![TOKEN_PROGRAM.to_owned()],
        all_token_calls: false,
    })
    .unwrap();
    let keys = vec![token_program_pubkey()];
    let ins = Instruction { program_index: 3, accounts: vec![], data: vec![] };
    match sel.is_selected_with_keys(&keys, &ins) {
        Err(Error::InstructionMissingAccount(3)) => (),
        other => panic!("wrong result: {other:?}"),
    }

    let mut burn_one = vec![8u8];
    burn_one.extend_from_slice(&1u64.to_le_bytes());
    let ins = Instruction { program_index: 0, accounts: vec![], data: burn_one };
    assert_eq!(sel.is_selected_with_keys(&keys, &ins).unwrap(), true);
}

#[test]
fn instruction_selector_is_empty_reports_empty_allow_list() {
    let sel = InstructionSelector::from_config(Instructions {
        programs: vec![],
        all_token_calls: false,
    })
    .unwrap();
    assert!(sel.is_empty());
    let sel = InstructionSelector::from_config(Instructions {
        programs: vec![TOKEN_PROGRAM.to_owned()],
        all_token_calls: false,
    })
    .unwrap();
    assert!(!sel.is_empty());
}

#[test]
fn parsed_key_matches_token_program_reference() {
    // The base-58 parser must actually decode: the well-known token program
    // string decodes to the same bytes that the token program crate carries.
    let parsed = parse_pubkey(TOKEN_PROGRAM).unwrap();
    assert_eq!(parsed.as_bytes().as_slice(), spl_token::id().to_bytes().as_slice());
    assert!(key_eq(&parsed, &token_program_pubkey()));
    assert!(parse_pubkey("definitely not base58!").is_none());
    assert!(parse_pubkey("").is_none());
}

#[test]
fn token_record_layout_matches_reference() {
    // Cross-check the fixed record layout against the token program's own
    // unpacker.
    assert_eq!(spl_token::state::Account::get_packed_len(), 165);
    let mint = [7u8; 32];
    let data = token_record(&mint, 42);
    let unpacked = spl_token::state::Account::unpack_from_slice(&data).unwrap();
    assert_eq!(unpacked.mint.to_bytes(), mint);
    assert_eq!(unpacked.amount, 42);
    let parsed = geyser_selector::keys::parse_token_record(&data).unwrap();
    assert_eq!(parsed.mint.as_bytes().as_slice(), &mint);
    assert_eq!(parsed.amount, 42);
}

#[test]
fn burn_payload_matches_reference_encoding() {
    // The accepted unit-burn payload is exactly the token program's Burn
    // instruction of amount 1.
    let reference = spl_token::instruction::TokenInstruction::Burn { amount: 1 }.pack();
    let mut burn_one = vec![8u8];
    burn_one.extend_from_slice(&1u64.to_le_bytes());
    assert_eq!(burn_one, reference);
}

#[test]
fn instruction_notify_is_built_for_selected_instructions() {
    let sel = InstructionSelector::from_config(Instructions {
        programs: vec![TOKEN_PROGRAM.to_owned()],
        all_token_calls: true,
    })
    .unwrap();
    let keys = vec![token_program_pubkey(), key(3), key(4)];
    let ins = Instruction { program_index: 0, accounts: vec![2, 1], data: vec![3, 9] };
    let sig = vec![5u8; 64];

    let notify =
        build_instruction_notify(&sel, &keys, &ins, 9, &sig, InstructionIndex::TopLevel(0))
            .unwrap()
            .unwrap();
    assert!(key_eq(&notify.program, &token_program_pubkey()));
    assert_eq!(notify.data, vec![3, 9]);
    assert_eq!(notify.accounts.len(), 2);
    assert!(key_eq(&notify.accounts[0], &key(4)));
    assert!(key_eq(&notify.accounts[1], &key(3)));
    assert_eq!(notify.slot, 9);
    assert_eq!(notify.txn_signature, sig);
    assert_eq!(notify.index, InstructionIndex::TopLevel(0));

    // Not selected: the target program is not allow-listed.
    let unlisted = Instruction { program_index: 1, accounts: vec![0], data: vec![] };
    assert!(build_instruction_notify(&sel, &keys, &unlisted, 9, &sig, InstructionIndex::TopLevel(1))
        .unwrap()
        .is_none());

    // A selected instruction with an out-of-range input account fails.
    let broken = Instruction { program_index: 0, accounts: vec![9], data: vec![] };
    match build_instruction_notify(&sel, &keys, &broken, 9, &sig, InstructionIndex::TopLevel(2)) {
        Err(Error::InstructionMissingAccount(9)) => (),
        other => panic!("wrong result: {other:?}"),
    }
}
