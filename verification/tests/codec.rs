use geyser_selector::codec::decode_message;
use geyser_selector::codec::encode_message;
use geyser_selector::geyser::AccountUpdate;
use geyser_selector::geyser::InstructionIndex;
use geyser_selector::geyser::InstructionNotify;
use geyser_selector::geyser::Message;
use geyser_selector::geyser::SlotStatus;
use geyser_selector::geyser::SlotStatusUpdate;
use geyser_selector::keys::key_eq;
use geyser_selector::geyser::StartupType;
use geyser_selector::job_runner;
use geyser_selector::keys::Pubkey;

fn key(byte: u8) -> Pubkey {
    Pubkey::try_from_bytes(vec![byte; 32]).unwrap()
}

#[test]
fn account_update_round_trips() {
    let original = AccountUpdate {
        key: key(1),
        lamports: 987654321,
        owner: key(2),
        executable: true,
        rent_epoch: 3,
        data: vec![0, 255, 7, 7, 7],
        write_version: u64::MAX,
        slot: 424242,
        is_startup: true,
    };
    let wire = encode_message(&Message::AccountUpdate(original));
    let decoded = match decode_message(&wire) {
        Some(Message::AccountUpdate(a)) => a,
        other => panic!("wrong category: {other:?}"),
    };
    assert!(key_eq(&decoded.key, &key(1)));
    assert_eq!(decoded.lamports, 987654321);
    assert!(key_eq(&decoded.owner, &key(2)));
    assert!(decoded.executable);
    assert_eq!(decoded.rent_epoch, 3);
    assert_eq!(decoded.data, vec![0, 255, 7, 7, 7]);
    assert_eq!(decoded.write_version, u64::MAX);
    assert_eq!(decoded.slot, 424242);
    assert!(decoded.is_startup);
}

#[test]
fn instruction_notify_round_trips() {
    let original = InstructionNotify {
        program: key(9),
        data: vec![8, 1, 0, 0, 0, 0, 0, 0, 0],
        accounts: vec![key(3), key(4), key(5)],
        slot: 77,
        txn_signature: vec![6; 64],
        index: InstructionIndex::Inner(2, 11),
    };
    let wire = encode_message(&Message::InstructionNotify(original));
    let decoded = match decode_message(&wire) {
        Some(Message::InstructionNotify(n)) => n,
        other => panic!("wrong category: {other:?}"),
    };
    assert!(key_eq(&decoded.program, &key(9)));
    assert_eq!(decoded.data, vec![8, 1, 0, 0, 0, 0, 0, 0, 0]);
    assert_eq!(decoded.accounts.len(), 3);
    assert!(key_eq(&decoded.accounts[0], &key(3)));
    assert!(key_eq(&decoded.accounts[1], &key(4)));
    assert!(key_eq(&decoded.accounts[2], &key(5)));
    assert_eq!(decoded.slot, 77);
    assert_eq!(decoded.txn_signature, vec![6; 64]);
    assert_eq!(decoded.index, InstructionIndex::Inner(2, 11));
}

#[test]
fn top_level_index_round_trips() {
    let original = InstructionNotify {
        program: key(9),
        data: vec![],
        accounts: vec![],
        slot: 0,
        txn_signature: vec![],
        index: InstructionIndex::TopLevel(123456),
    };
    let wire = encode_message(&Message::InstructionNotify(original));
    match decode_message(&wire) {
        Some(Message::InstructionNotify(n)) => {
            assert_eq!(n.index, InstructionIndex::TopLevel(123456))
        },
        other => panic!("wrong category: {other:?}"),
    }
}

#[test]
fn slot_status_round_trips() {
    for (parent, status) in [
        (None, SlotStatus::Processed),
        (Some(41u64), SlotStatus::Rooted),
        (Some(0), SlotStatus::Confirmed),
    ] {
        let original = SlotStatusUpdate { slot: 42, parent, status };
        let wire = encode_message(&Message::SlotStatusUpdate(original));
        match decode_message(&wire) {
            Some(Message::SlotStatusUpdate(s)) => {
                assert_eq!(s.slot, 42);
                assert_eq!(s.parent, parent);
                assert_eq!(s.status, status);
            },
            other => panic!("wrong category: {other:?}"),
        }
    }
}

#[test]
fn slot_status_wire_bytes_are_exact() {
    let wire = encode_message(&Message::SlotStatusUpdate(SlotStatusUpdate {
        slot: 258,
        parent: None,
        status: SlotStatus::Confirmed,
    }));
    let mut expected = vec![2u8]; // category byte
    expected.push(4);
    expected.extend_from_slice(b"slot");
    expected.extend_from_slice(&258u64.to_le_bytes());
    expected.push(6);
    expected.extend_from_slice(b"parent");
    expected.push(0); // absent
    expected.push(6);
    expected.extend_from_slice(b"status");
    expected.push(2); // confirmed
    assert_eq!(wire, expected);
}

#[test]
fn garbage_and_trailing_bytes_are_rejected() {
    assert!(decode_message(&[]).is_none());
    assert!(decode_message(&[9]).is_none());
    assert!(decode_message(&[0, 1, 2, 3]).is_none());
    let mut wire = encode_message(&Message::SlotStatusUpdate(SlotStatusUpdate {
        slot: 1,
        parent: None,
        status: SlotStatus::Processed,
    }));
    wire.push(0);
    assert!(decode_message(&wire).is_none());
}

#[test]
fn job_refresh_table_round_trips() {
    let original = job_runner::Message::RefreshTable("tablé ☃ name".to_owned());
    let wire = job_runner::encode_job_message(&original);
    match job_runner::decode_job_message(&wire) {
        Some(job_runner::Message::RefreshTable(s)) => assert_eq!(s, "tablé ☃ name"),
        other => panic!("wrong category: {other:?}"),
    }
}

#[test]
fn job_reindex_slot_round_trips() {
    let original = job_runner::Message::ReindexSlot(job_runner::SlotReindex {
        slot: 31337,
        startup: StartupType::Startup,
    });
    let wire = job_runner::encode_job_message(&original);
    match job_runner::decode_job_message(&wire) {
        Some(job_runner::Message::ReindexSlot(r)) => {
            assert_eq!(r.slot, 31337);
            assert_eq!(r.startup, StartupType::Startup);
        },
        other => panic!("wrong category: {other:?}"),
    }
}

#[test]
fn job_message_with_invalid_utf8_is_rejected() {
    // Kind byte, "table" name tag, then a length-prefixed non-UTF-8 body.
    let mut wire = vec![0u8, 5];
    wire.extend_from_slice(b"table");
    wire.extend_from_slice(&2u64.to_le_bytes());
    wire.extend_from_slice(&[0xff, 0xfe]);
    assert!(job_runner::decode_job_message(&wire).is_none());
}
