//! The wire envelope: a compact, field-tagged binary encoding of event
//! messages, so new optional fields do not break older consumers.
//!
//! Every record is a run of fields, each tagged with its name; integers are
//! little-endian and variable-length data is length-prefixed.  The decoder
//! is the encoder's exact inverse: decoding an encoded message returns a
//! value equal to the original.

use vstd::prelude::*;
use vstd::bytes::lemma_auto_spec_u64_to_from_le_bytes;
use vstd::bytes::spec_u64_from_le_bytes;
use vstd::bytes::spec_u64_to_le_bytes;
use vstd::bytes::u64_from_le_bytes;
use vstd::bytes::u64_to_le_bytes;
use vstd::slice::slice_index_get;
use vstd::slice::slice_subrange;
use vstd::slice::slice_to_vec;
use vstd::string::is_ascii_spec_bytes;
use vstd::string::StringSliceAdditionalSpecFns;

use crate::geyser::AccountUpdate;
use crate::geyser::AccountUpdateView;
use crate::geyser::InstructionNotify;
use crate::geyser::Message;
use crate::geyser::InstructionIndex;
use crate::geyser::InstructionNotifyView;
use crate::geyser::MessageView;
use crate::geyser::SlotStatus;
use crate::geyser::SlotStatusUpdate;
use crate::keys::Pubkey;

verus! {

// ---------------------------------------------------------------------
// Encoding forms
// ---------------------------------------------------------------------

/// The bytes of an ASCII name, one byte per character.
pub open spec fn ascii_bytes(s: Seq<char>) -> Seq<u8> {
    Seq::new(s.len(), |i: int| s[i] as u8)
}

/// A 64-bit integer, little-endian.
pub open spec fn enc_u64(x: u64) -> Seq<u8> {
    spec_u64_to_le_bytes(x)
}

/// A boolean, one byte.
pub open spec fn enc_bool(b: bool) -> Seq<u8> {
    seq![if b { 1u8 } else { 0u8 }]
}

/// Variable-length data: a length prefix, then the raw bytes.
pub open spec fn enc_bytes(b: Seq<u8>) -> Seq<u8> {
    enc_u64(b.len() as u64) + b
}

/// A field name: its length in one byte, then its ASCII characters.
pub open spec fn enc_name(name: Seq<char>) -> Seq<u8> {
    seq![name.len() as u8] + ascii_bytes(name)
}

/// A tagged field: the name, then the field's payload.
pub open spec fn enc_field(name: Seq<char>, payload: Seq<u8>) -> Seq<u8> {
    enc_name(name) + payload
}

/// An optional integer: a presence byte, then the value if present.
pub open spec fn enc_opt_u64(v: Option<u64>) -> Seq<u8> {
    match v {
        None => seq![0u8],
        Some(x) => seq![1u8] + enc_u64(x),
    }
}

// ---------------------------------------------------------------------
// Readers: each consumes one form from the front and yields the rest
// ---------------------------------------------------------------------

/// Read one byte.
pub open spec fn rd_byte(b: Seq<u8>) -> Option<(u8, Seq<u8>)> {
    if b.len() >= 1 {
        Some((b[0], b.skip(1)))
    } else {
        None
    }
}

/// Read a little-endian 64-bit integer.
pub open spec fn rd_u64(b: Seq<u8>) -> Option<(u64, Seq<u8>)> {
    if b.len() >= 8 {
        Some((spec_u64_from_le_bytes(b.take(8)), b.skip(8)))
    } else {
        None
    }
}

/// Read a boolean byte; anything but 0 or 1 is not an encoding.
pub open spec fn rd_bool(b: Seq<u8>) -> Option<(bool, Seq<u8>)> {
    match rd_byte(b) {
        Some((t, rest)) => if t == 0 {
            Some((false, rest))
        } else if t == 1 {
            Some((true, rest))
        } else {
            None
        },
        None => None,
    }
}

/// Read exactly `n` raw bytes.
pub open spec fn rd_raw(b: Seq<u8>, n: int) -> Option<(Seq<u8>, Seq<u8>)> {
    if 0 <= n <= b.len() {
        Some((b.take(n), b.skip(n)))
    } else {
        None
    }
}

/// Read length-prefixed data.
pub open spec fn rd_bytes(b: Seq<u8>) -> Option<(Seq<u8>, Seq<u8>)> {
    match rd_u64(b) {
        Some((n, rest)) => rd_raw(rest, n as int),
        None => None,
    }
}

/// Read a field name, which must match the one expected.
pub open spec fn rd_name(b: Seq<u8>, name: Seq<char>) -> Option<Seq<u8>> {
    if b.len() >= 1 + name.len() && b[0] == name.len() as u8 && b.subrange(
        1,
        1 + name.len() as int,
    ) == ascii_bytes(name) {
        Some(b.skip(1 + name.len() as int))
    } else {
        None
    }
}

/// Read an optional integer.
pub open spec fn rd_opt_u64(b: Seq<u8>) -> Option<(Option<u64>, Seq<u8>)> {
    match rd_byte(b) {
        Some((t, rest)) => if t == 0 {
            Some((None, rest))
        } else if t == 1 {
            match rd_u64(rest) {
                Some((x, rest2)) => Some((Some(x), rest2)),
                None => None,
            }
        } else {
            None
        },
        None => None,
    }
}

// ---------------------------------------------------------------------
// Round-trip facts for the primitive forms
// ---------------------------------------------------------------------

/// A byte reads back.
pub proof fn lemma_rd_byte(x: u8, tail: Seq<u8>)
    ensures
        rd_byte(seq![x] + tail) == Some((x, tail)),
{
    let b = seq![x] + tail;
    assert(b.skip(1) =~= tail);
}

/// An encoded integer reads back.
pub proof fn lemma_rd_u64(x: u64, tail: Seq<u8>)
    ensures
        rd_u64(enc_u64(x) + tail) == Some((x, tail)),
{
    lemma_auto_spec_u64_to_from_le_bytes();
    let b = enc_u64(x) + tail;
    assert(b.take(8) =~= enc_u64(x));
    assert(b.skip(8) =~= tail);
}

/// An encoded boolean reads back.
pub proof fn lemma_rd_bool(v: bool, tail: Seq<u8>)
    ensures
        rd_bool(enc_bool(v) + tail) == Some((v, tail)),
{
    lemma_rd_byte(if v { 1u8 } else { 0u8 }, tail);
    assert(enc_bool(v) + tail =~= seq![if v { 1u8 } else { 0u8 }] + tail);
}

/// Raw bytes of a known length read back.
pub proof fn lemma_rd_raw(data: Seq<u8>, tail: Seq<u8>)
    ensures
        rd_raw(data + tail, data.len() as int) == Some((data, tail)),
{
    let b = data + tail;
    assert(b.take(data.len() as int) =~= data);
    assert(b.skip(data.len() as int) =~= tail);
}

/// Encoded length-prefixed data reads back.
pub proof fn lemma_rd_bytes(data: Seq<u8>, tail: Seq<u8>)
    requires
        data.len() <= u64::MAX,
    ensures
        rd_bytes(enc_bytes(data) + tail) == Some((data, tail)),
{
    let b = enc_bytes(data) + tail;
    assert(b =~= enc_u64(data.len() as u64) + (data + tail));
    lemma_rd_u64(data.len() as u64, data + tail);
    lemma_rd_raw(data, tail);
}

/// An encoded field name reads back.
pub proof fn lemma_rd_name(name: Seq<char>, tail: Seq<u8>)
    requires
        name.len() < 256,
    ensures
        rd_name(enc_name(name) + tail, name) == Some(tail),
{
    let b = enc_name(name) + tail;
    assert(b[0] == name.len() as u8);
    assert(b.subrange(1, 1 + name.len() as int) =~= ascii_bytes(name));
    assert(b.skip(1 + name.len() as int) =~= tail);
}

/// An encoded optional integer reads back.
pub proof fn lemma_rd_opt_u64(v: Option<u64>, tail: Seq<u8>)
    ensures
        rd_opt_u64(enc_opt_u64(v) + tail) == Some((v, tail)),
{
    match v {
        None => {
            lemma_rd_byte(0u8, tail);
            assert(enc_opt_u64(v) + tail =~= seq![0u8] + tail);
        },
        Some(x) => {
            assert(enc_opt_u64(v) + tail =~= seq![1u8] + (enc_u64(x) + tail));
            lemma_rd_byte(1u8, enc_u64(x) + tail);
            lemma_rd_u64(x, tail);
        },
    }
}

// ---------------------------------------------------------------------
// Message forms
// ---------------------------------------------------------------------

/// A slot status, one byte.
pub open spec fn enc_status(s: SlotStatus) -> Seq<u8> {
    seq![
        match s {
            SlotStatus::Processed => 0u8,
            SlotStatus::Rooted => 1u8,
            SlotStatus::Confirmed => 2u8,
        },
    ]
}

/// An instruction position: a shape byte, then the indices.
pub open spec fn enc_index(ix: InstructionIndex) -> Seq<u8> {
    match ix {
        InstructionIndex::TopLevel(i) => seq![0u8] + enc_u64(i as u64),
        InstructionIndex::Inner(p, c) => seq![1u8] + seq![p] + enc_u64(c as u64),
    }
}

/// The keys of a list, each 32 raw bytes, in order.
pub open spec fn enc_key_list(ks: Seq<Seq<u8>>) -> Seq<u8>
    decreases ks.len(),
{
    if ks.len() == 0 {
        Seq::empty()
    } else {
        ks[0] + enc_key_list(ks.drop_first())
    }
}

/// A key list: a count prefix, then the keys.
pub open spec fn enc_keys(ks: Seq<Seq<u8>>) -> Seq<u8> {
    enc_u64(ks.len() as u64) + enc_key_list(ks)
}

/// The record of an account update: every field, tagged with its name.
pub open spec fn spec_encode_account(a: AccountUpdateView) -> Seq<u8> {
    enc_field("key"@, a.key) + enc_field("lamports"@, enc_u64(a.lamports)) + enc_field(
        "owner"@,
        a.owner,
    ) + enc_field("executable"@, enc_bool(a.executable)) + enc_field(
        "rent_epoch"@,
        enc_u64(a.rent_epoch),
    ) + enc_field("data"@, enc_bytes(a.data)) + enc_field(
        "write_version"@,
        enc_u64(a.write_version),
    ) + enc_field("slot"@, enc_u64(a.slot)) + enc_field("is_startup"@, enc_bool(a.is_startup))
}

/// The record of an instruction notification: every field, tagged with its
/// name.
pub open spec fn spec_encode_instruction(n: InstructionNotifyView) -> Seq<u8> {
    enc_field("program"@, n.program) + enc_field("data"@, enc_bytes(n.data)) + enc_field(
        "accounts"@,
        enc_keys(n.accounts),
    ) + enc_field("slot"@, enc_u64(n.slot)) + enc_field(
        "txn_signature"@,
        enc_bytes(n.txn_signature),
    ) + enc_field("index"@, enc_index(n.index))
}

/// The record of a slot status update: every field, tagged with its name.
pub open spec fn spec_encode_slot_status(s: SlotStatusUpdate) -> Seq<u8> {
    enc_field("slot"@, enc_u64(s.slot)) + enc_field("parent"@, enc_opt_u64(s.parent)) + enc_field(
        "status"@,
        enc_status(s.status),
    )
}

/// The wire envelope of a message: a category byte, then the record.
pub open spec fn spec_encode_message(m: MessageView) -> Seq<u8> {
    match m {
        MessageView::AccountUpdate(a) => seq![0u8] + spec_encode_account(a),
        MessageView::InstructionNotify(n) => seq![1u8] + spec_encode_instruction(n),
        MessageView::SlotStatusUpdate(s) => seq![2u8] + spec_encode_slot_status(s),
    }
}

// ---------------------------------------------------------------------
// Message readers
// ---------------------------------------------------------------------

/// Read a 32-byte key.
pub open spec fn rd_key(b: Seq<u8>) -> Option<(Seq<u8>, Seq<u8>)> {
    rd_raw(b, 32)
}

/// Read a slot status byte.
pub open spec fn rd_status(b: Seq<u8>) -> Option<(SlotStatus, Seq<u8>)> {
    match rd_byte(b) {
        Some((t, rest)) => if t == 0 {
            Some((SlotStatus::Processed, rest))
        } else if t == 1 {
            Some((SlotStatus::Rooted, rest))
        } else if t == 2 {
            Some((SlotStatus::Confirmed, rest))
        } else {
            None
        },
        None => None,
    }
}

/// Read an instruction position.
pub open spec fn rd_index(b: Seq<u8>) -> Option<(InstructionIndex, Seq<u8>)> {
    match rd_byte(b) {
        Some((t, rest)) => if t == 0 {
            match rd_u64(rest) {
                Some((x, rest2)) => if x <= usize::MAX as u64 {
                    Some((InstructionIndex::TopLevel(x as usize), rest2))
                } else {
                    None
                },
                None => None,
            }
        } else if t == 1 {
            match rd_byte(rest) {
                Some((p, rest2)) => match rd_u64(rest2) {
                    Some((c, rest3)) => if c <= usize::MAX as u64 {
                        Some((InstructionIndex::Inner(p, c as usize), rest3))
                    } else {
                        None
                    },
                    None => None,
                },
                None => None,
            }
        } else {
            None
        },
        None => None,
    }
}

/// Read `n` keys of 32 bytes each.
pub open spec fn rd_key_list(b: Seq<u8>, n: nat) -> Option<(Seq<Seq<u8>>, Seq<u8>)>
    decreases n,
{
    if n == 0 {
        Some((Seq::empty(), b))
    } else {
        match rd_key(b) {
            Some((k, rest)) => match rd_key_list(rest, (n - 1) as nat) {
                Some((ks, rest2)) => Some((seq![k] + ks, rest2)),
                None => None,
            },
            None => None,
        }
    }
}

/// Read a count-prefixed key list.
pub open spec fn rd_keys(b: Seq<u8>) -> Option<(Seq<Seq<u8>>, Seq<u8>)> {
    match rd_u64(b) {
        Some((n, rest)) => rd_key_list(rest, n as nat),
        None => None,
    }
}

/// Read a name-tagged integer field.
pub open spec fn rd_field_u64(b: Seq<u8>, name: Seq<char>) -> Option<(u64, Seq<u8>)> {
    match rd_name(b, name) {
        Some(rest) => rd_u64(rest),
        None => None,
    }
}

/// Read a name-tagged boolean field.
pub open spec fn rd_field_bool(b: Seq<u8>, name: Seq<char>) -> Option<(bool, Seq<u8>)> {
    match rd_name(b, name) {
        Some(rest) => rd_bool(rest),
        None => None,
    }
}

/// Read a name-tagged key field.
pub open spec fn rd_field_key(b: Seq<u8>, name: Seq<char>) -> Option<(Seq<u8>, Seq<u8>)> {
    match rd_name(b, name) {
        Some(rest) => rd_key(rest),
        None => None,
    }
}

/// Read a name-tagged data field.
pub open spec fn rd_field_bytes(b: Seq<u8>, name: Seq<char>) -> Option<(Seq<u8>, Seq<u8>)> {
    match rd_name(b, name) {
        Some(rest) => rd_bytes(rest),
        None => None,
    }
}

/// Read a name-tagged optional-integer field.
pub open spec fn rd_field_opt_u64(b: Seq<u8>, name: Seq<char>) -> Option<(Option<u64>, Seq<u8>)> {
    match rd_name(b, name) {
        Some(rest) => rd_opt_u64(rest),
        None => None,
    }
}

/// Read a name-tagged slot status field.
pub open spec fn rd_field_status(b: Seq<u8>, name: Seq<char>) -> Option<(SlotStatus, Seq<u8>)> {
    match rd_name(b, name) {
        Some(rest) => rd_status(rest),
        None => None,
    }
}

/// Read a name-tagged instruction position field.
pub open spec fn rd_field_index(b: Seq<u8>, name: Seq<char>) -> Option<
    (InstructionIndex, Seq<u8>),
> {
    match rd_name(b, name) {
        Some(rest) => rd_index(rest),
        None => None,
    }
}

/// Read a name-tagged key list field.
pub open spec fn rd_field_keys(b: Seq<u8>, name: Seq<char>) -> Option<(Seq<Seq<u8>>, Seq<u8>)> {
    match rd_name(b, name) {
        Some(rest) => rd_keys(rest),
        None => None,
    }
}

/// Decode an account-update record.
pub open spec fn spec_decode_account(b: Seq<u8>) -> Option<(AccountUpdateView, Seq<u8>)> {
    match rd_field_key(b, "key"@) {
        Some((key, b)) => match rd_field_u64(b, "lamports"@) {
            Some((lamports, b)) => match rd_field_key(b, "owner"@) {
                Some((owner, b)) => match rd_field_bool(b, "executable"@) {
                    Some((executable, b)) => match rd_field_u64(b, "rent_epoch"@) {
                        Some((rent_epoch, b)) => match rd_field_bytes(b, "data"@) {
                            Some((data, b)) => match rd_field_u64(b, "write_version"@) {
                                Some((write_version, b)) => match rd_field_u64(b, "slot"@) {
                                    Some((slot, b)) => match rd_field_bool(b, "is_startup"@) {
                                        Some((is_startup, b)) => Some(
                                            (
                                                AccountUpdateView {
                                                    key,
                                                    lamports,
                                                    owner,
                                                    executable,
                                                    rent_epoch,
                                                    data,
                                                    write_version,
                                                    slot,
                                                    is_startup,
                                                },
                                                b,
                                            ),
                                        ),
                                        None => None,
                                    },
                                    None => None,
                                },
                                None => None,
                            },
                            None => None,
                        },
                        None => None,
                    },
                    None => None,
                },
                None => None,
            },
            None => None,
        },
        None => None,
    }
}

/// Decode an instruction-notification record.
pub open spec fn spec_decode_instruction(b: Seq<u8>) -> Option<(InstructionNotifyView, Seq<u8>)> {
    match rd_field_key(b, "program"@) {
        Some((program, b)) => match rd_field_bytes(b, "data"@) {
            Some((data, b)) => match rd_field_keys(b, "accounts"@) {
                Some((accounts, b)) => match rd_field_u64(b, "slot"@) {
                    Some((slot, b)) => match rd_field_bytes(b, "txn_signature"@) {
                        Some((txn_signature, b)) => match rd_field_index(b, "index"@) {
                            Some((index, b)) => Some(
                                (
                                    InstructionNotifyView {
                                        program,
                                        data,
                                        accounts,
                                        slot,
                                        txn_signature,
                                        index,
                                    },
                                    b,
                                ),
                            ),
                            None => None,
                        },
                        None => None,
                    },
                    None => None,
                },
                None => None,
            },
            None => None,
        },
        None => None,
    }
}

/// Decode a slot-status record.
pub open spec fn spec_decode_slot_status(b: Seq<u8>) -> Option<(SlotStatusUpdate, Seq<u8>)> {
    match rd_field_u64(b, "slot"@) {
        Some((slot, b)) => match rd_field_opt_u64(b, "parent"@) {
            Some((parent, b)) => match rd_field_status(b, "status"@) {
                Some((status, b)) => Some((SlotStatusUpdate { slot, parent, status }, b)),
                None => None,
            },
            None => None,
        },
        None => None,
    }
}

/// Decode a whole message envelope; trailing bytes are not an encoding.
pub open spec fn spec_decode_message(b: Seq<u8>) -> Option<MessageView> {
    match rd_byte(b) {
        Some((tag, rest)) => if tag == 0 {
            match spec_decode_account(rest) {
                Some((a, rest2)) => if rest2.len() == 0 {
                    Some(MessageView::AccountUpdate(a))
                } else {
                    None
                },
                None => None,
            }
        } else if tag == 1 {
            match spec_decode_instruction(rest) {
                Some((n, rest2)) => if rest2.len() == 0 {
                    Some(MessageView::InstructionNotify(n))
                } else {
                    None
                },
                None => None,
            }
        } else if tag == 2 {
            match spec_decode_slot_status(rest) {
                Some((s, rest2)) => if rest2.len() == 0 {
                    Some(MessageView::SlotStatusUpdate(s))
                } else {
                    None
                },
                None => None,
            }
        } else {
            None
        },
        None => None,
    }
}

// ---------------------------------------------------------------------
// Round-trip facts for the message forms
// ---------------------------------------------------------------------

/// An encoded status byte reads back.
pub proof fn lemma_rd_status(s: SlotStatus, tail: Seq<u8>)
    ensures
        rd_status(enc_status(s) + tail) == Some((s, tail)),
{
    match s {
        SlotStatus::Processed => lemma_rd_byte(0u8, tail),
        SlotStatus::Rooted => lemma_rd_byte(1u8, tail),
        SlotStatus::Confirmed => lemma_rd_byte(2u8, tail),
    }
}

/// An encoded instruction position reads back.
pub proof fn lemma_rd_index(ix: InstructionIndex, tail: Seq<u8>)
    ensures
        rd_index(enc_index(ix) + tail) == Some((ix, tail)),
{
    match ix {
        InstructionIndex::TopLevel(i) => {
            assert(enc_index(ix) + tail =~= seq![0u8] + (enc_u64(i as u64) + tail));
            lemma_rd_byte(0u8, enc_u64(i as u64) + tail);
            lemma_rd_u64(i as u64, tail);
        },
        InstructionIndex::Inner(p, c) => {
            assert(enc_index(ix) + tail =~= seq![1u8] + (seq![p] + (enc_u64(c as u64) + tail)));
            lemma_rd_byte(1u8, seq![p] + (enc_u64(c as u64) + tail));
            lemma_rd_byte(p, enc_u64(c as u64) + tail);
            lemma_rd_u64(c as u64, tail);
        },
    }
}

/// An encoded key list reads back.
pub proof fn lemma_rd_key_list(ks: Seq<Seq<u8>>, tail: Seq<u8>)
    requires
        forall|i: int| 0 <= i < ks.len() ==> (#[trigger] ks[i]).len() == 32,
    ensures
        rd_key_list(enc_key_list(ks) + tail, ks.len() as nat) == Some((ks, tail)),
    decreases ks.len(),
{
    if ks.len() == 0 {
        assert(enc_key_list(ks) + tail =~= tail);
        assert(rd_key_list(tail, 0) == Some((Seq::<Seq<u8>>::empty(), tail)));
        assert(Seq::<Seq<u8>>::empty() =~= ks);
    } else {
        let rest = enc_key_list(ks.drop_first()) + tail;
        assert(enc_key_list(ks) + tail =~= ks[0] + rest);
        lemma_rd_raw(ks[0], rest);
        lemma_rd_key_list(ks.drop_first(), tail);
        assert(seq![ks[0]] + ks.drop_first() =~= ks);
    }
}

/// An encoded count-prefixed key list reads back.
pub proof fn lemma_rd_keys(ks: Seq<Seq<u8>>, tail: Seq<u8>)
    requires
        ks.len() <= u64::MAX,
        forall|i: int| 0 <= i < ks.len() ==> (#[trigger] ks[i]).len() == 32,
    ensures
        rd_keys(enc_keys(ks) + tail) == Some((ks, tail)),
{
    assert(enc_keys(ks) + tail =~= enc_u64(ks.len() as u64) + (enc_key_list(ks) + tail));
    lemma_rd_u64(ks.len() as u64, enc_key_list(ks) + tail);
    lemma_rd_key_list(ks, tail);
}

/// An encoded integer field reads back.
pub proof fn lemma_rd_field_u64(name: Seq<char>, x: u64, tail: Seq<u8>)
    requires
        name.len() < 256,
    ensures
        rd_field_u64(enc_field(name, enc_u64(x)) + tail, name) == Some((x, tail)),
{
    assert(enc_field(name, enc_u64(x)) + tail =~= enc_name(name) + (enc_u64(x) + tail));
    lemma_rd_name(name, enc_u64(x) + tail);
    lemma_rd_u64(x, tail);
}

/// An encoded boolean field reads back.
pub proof fn lemma_rd_field_bool(name: Seq<char>, v: bool, tail: Seq<u8>)
    requires
        name.len() < 256,
    ensures
        rd_field_bool(enc_field(name, enc_bool(v)) + tail, name) == Some((v, tail)),
{
    assert(enc_field(name, enc_bool(v)) + tail =~= enc_name(name) + (enc_bool(v) + tail));
    lemma_rd_name(name, enc_bool(v) + tail);
    lemma_rd_bool(v, tail);
}

/// An encoded key field reads back.
pub proof fn lemma_rd_field_key(name: Seq<char>, k: Seq<u8>, tail: Seq<u8>)
    requires
        name.len() < 256,
        k.len() == 32,
    ensures
        rd_field_key(enc_field(name, k) + tail, name) == Some((k, tail)),
{
    assert(enc_field(name, k) + tail =~= enc_name(name) + (k + tail));
    lemma_rd_name(name, k + tail);
    lemma_rd_raw(k, tail);
}

/// An encoded data field reads back.
pub proof fn lemma_rd_field_bytes(name: Seq<char>, data: Seq<u8>, tail: Seq<u8>)
    requires
        name.len() < 256,
        data.len() <= u64::MAX,
    ensures
        rd_field_bytes(enc_field(name, enc_bytes(data)) + tail, name) == Some((data, tail)),
{
    assert(enc_field(name, enc_bytes(data)) + tail =~= enc_name(name) + (enc_bytes(data) + tail));
    lemma_rd_name(name, enc_bytes(data) + tail);
    lemma_rd_bytes(data, tail);
}

/// An encoded optional-integer field reads back.
pub proof fn lemma_rd_field_opt_u64(name: Seq<char>, v: Option<u64>, tail: Seq<u8>)
    requires
        name.len() < 256,
    ensures
        rd_field_opt_u64(enc_field(name, enc_opt_u64(v)) + tail, name) == Some((v, tail)),
{
    assert(enc_field(name, enc_opt_u64(v)) + tail =~= enc_name(name) + (enc_opt_u64(v) + tail));
    lemma_rd_name(name, enc_opt_u64(v) + tail);
    lemma_rd_opt_u64(v, tail);
}

/// An encoded status field reads back.
pub proof fn lemma_rd_field_status(name: Seq<char>, s: SlotStatus, tail: Seq<u8>)
    requires
        name.len() < 256,
    ensures
        rd_field_status(enc_field(name, enc_status(s)) + tail, name) == Some((s, tail)),
{
    assert(enc_field(name, enc_status(s)) + tail =~= enc_name(name) + (enc_status(s) + tail));
    lemma_rd_name(name, enc_status(s) + tail);
    lemma_rd_status(s, tail);
}

/// An encoded instruction-position field reads back.
pub proof fn lemma_rd_field_index(name: Seq<char>, ix: InstructionIndex, tail: Seq<u8>)
    requires
        name.len() < 256,
    ensures
        rd_field_index(enc_field(name, enc_index(ix)) + tail, name) == Some((ix, tail)),
{
    assert(enc_field(name, enc_index(ix)) + tail =~= enc_name(name) + (enc_index(ix) + tail));
    lemma_rd_name(name, enc_index(ix) + tail);
    lemma_rd_index(ix, tail);
}

/// An encoded key-list field reads back.
pub proof fn lemma_rd_field_keys(name: Seq<char>, ks: Seq<Seq<u8>>, tail: Seq<u8>)
    requires
        name.len() < 256,
        ks.len() <= u64::MAX,
        forall|i: int| 0 <= i < ks.len() ==> (#[trigger] ks[i]).len() == 32,
    ensures
        rd_field_keys(enc_field(name, enc_keys(ks)) + tail, name) == Some((ks, tail)),
{
    assert(enc_field(name, enc_keys(ks)) + tail =~= enc_name(name) + (enc_keys(ks) + tail));
    lemma_rd_name(name, enc_keys(ks) + tail);
    lemma_rd_keys(ks, tail);
}

/// Reveal the lengths of every field name used by the wire format.
proof fn lemma_field_name_lengths()
    ensures
        "key"@.len() < 256,
        "lamports"@.len() < 256,
        "owner"@.len() < 256,
        "executable"@.len() < 256,
        "rent_epoch"@.len() < 256,
        "data"@.len() < 256,
        "write_version"@.len() < 256,
        "slot"@.len() < 256,
        "is_startup"@.len() < 256,
        "program"@.len() < 256,
        "accounts"@.len() < 256,
        "txn_signature"@.len() < 256,
        "index"@.len() < 256,
        "parent"@.len() < 256,
        "status"@.len() < 256,
{
    reveal_strlit("key");
    reveal_strlit("lamports");
    reveal_strlit("owner");
    reveal_strlit("executable");
    reveal_strlit("rent_epoch");
    reveal_strlit("data");
    reveal_strlit("write_version");
    reveal_strlit("slot");
    reveal_strlit("is_startup");
    reveal_strlit("program");
    reveal_strlit("accounts");
    reveal_strlit("txn_signature");
    reveal_strlit("index");
    reveal_strlit("parent");
    reveal_strlit("status");
}

/// An encoded account-update record decodes to the original.
pub proof fn lemma_decode_account(a: AccountUpdateView, tail: Seq<u8>)
    requires
        a.wf(),
    ensures
        spec_decode_account(spec_encode_account(a) + tail) == Some((a, tail)),
{
    lemma_field_name_lengths();
    let r9 = enc_field("is_startup"@, enc_bool(a.is_startup)) + tail;
    let r8 = enc_field("slot"@, enc_u64(a.slot)) + r9;
    let r7 = enc_field("write_version"@, enc_u64(a.write_version)) + r8;
    let r6 = enc_field("data"@, enc_bytes(a.data)) + r7;
    let r5 = enc_field("rent_epoch"@, enc_u64(a.rent_epoch)) + r6;
    let r4 = enc_field("executable"@, enc_bool(a.executable)) + r5;
    let r3 = enc_field("owner"@, a.owner) + r4;
    let r2 = enc_field("lamports"@, enc_u64(a.lamports)) + r3;
    assert(spec_encode_account(a) + tail =~= enc_field("key"@, a.key) + r2);
    lemma_rd_field_key("key"@, a.key, r2);
    lemma_rd_field_u64("lamports"@, a.lamports, r3);
    lemma_rd_field_key("owner"@, a.owner, r4);
    lemma_rd_field_bool("executable"@, a.executable, r5);
    lemma_rd_field_u64("rent_epoch"@, a.rent_epoch, r6);
    lemma_rd_field_bytes("data"@, a.data, r7);
    lemma_rd_field_u64("write_version"@, a.write_version, r8);
    lemma_rd_field_u64("slot"@, a.slot, r9);
    lemma_rd_field_bool("is_startup"@, a.is_startup, tail);
}

/// An encoded instruction-notification record decodes to the original.
pub proof fn lemma_decode_instruction(n: InstructionNotifyView, tail: Seq<u8>)
    requires
        n.wf(),
    ensures
        spec_decode_instruction(spec_encode_instruction(n) + tail) == Some((n, tail)),
{
    lemma_field_name_lengths();
    let r6 = enc_field("index"@, enc_index(n.index)) + tail;
    let r5 = enc_field("txn_signature"@, enc_bytes(n.txn_signature)) + r6;
    let r4 = enc_field("slot"@, enc_u64(n.slot)) + r5;
    let r3 = enc_field("accounts"@, enc_keys(n.accounts)) + r4;
    let r2 = enc_field("data"@, enc_bytes(n.data)) + r3;
    assert(spec_encode_instruction(n) + tail =~= enc_field("program"@, n.program) + r2);
    lemma_rd_field_key("program"@, n.program, r2);
    lemma_rd_field_bytes("data"@, n.data, r3);
    lemma_rd_field_keys("accounts"@, n.accounts, r4);
    lemma_rd_field_u64("slot"@, n.slot, r5);
    lemma_rd_field_bytes("txn_signature"@, n.txn_signature, r6);
    lemma_rd_field_index("index"@, n.index, tail);
}

/// An encoded slot-status record decodes to the original.
pub proof fn lemma_decode_slot_status(s: SlotStatusUpdate, tail: Seq<u8>)
    ensures
        spec_decode_slot_status(spec_encode_slot_status(s) + tail) == Some((s, tail)),
{
    lemma_field_name_lengths();
    let r3 = enc_field("status"@, enc_status(s.status)) + tail;
    let r2 = enc_field("parent"@, enc_opt_u64(s.parent)) + r3;
    assert(spec_encode_slot_status(s) + tail =~= enc_field("slot"@, enc_u64(s.slot)) + r2);
    lemma_rd_field_u64("slot"@, s.slot, r2);
    lemma_rd_field_opt_u64("parent"@, s.parent, r3);
    lemma_rd_field_status("status"@, s.status, tail);
}

/// Round trip: decoding an encoded message returns a value equal to the
/// original, for every event category.
pub proof fn lemma_message_round_trip(m: MessageView)
    requires
        m.wf(),
    ensures
        spec_decode_message(spec_encode_message(m)) == Some(m),
{
    let empty = Seq::<u8>::empty();
    match m {
        MessageView::AccountUpdate(a) => {
            assert(spec_encode_message(m) =~= seq![0u8] + (spec_encode_account(a) + empty));
            lemma_rd_byte(0u8, spec_encode_account(a) + empty);
            lemma_decode_account(a, empty);
        },
        MessageView::InstructionNotify(n) => {
            assert(spec_encode_message(m) =~= seq![1u8] + (spec_encode_instruction(n) + empty));
            lemma_rd_byte(1u8, spec_encode_instruction(n) + empty);
            lemma_decode_instruction(n, empty);
        },
        MessageView::SlotStatusUpdate(s) => {
            assert(spec_encode_message(m) =~= seq![2u8] + (spec_encode_slot_status(s) + empty));
            lemma_rd_byte(2u8, spec_encode_slot_status(s) + empty);
            lemma_decode_slot_status(s, empty);
        },
    }
}

// ---------------------------------------------------------------------
// Executable writers
// ---------------------------------------------------------------------

/// Append raw bytes.
pub fn push_bytes(out: &mut Vec<u8>, s: &[u8])
    ensures
        final(out)@ == old(out)@ + s@,
{
    let n = s.len();
    let mut i: usize = 0;
    while i < n
        invariant
            n == s@.len(),
            i <= n,
            out@ == old(out)@ + s@.take(i as int),
        decreases n - i,
    {
        out.push(*slice_index_get(s, i));
        proof {
            assert(out@ =~= old(out)@ + s@.take(i as int + 1));
        }
        i = i + 1;
    }
    proof {
        assert(out@ =~= old(out)@ + s@);
    }
}

/// Append a little-endian 64-bit integer.
pub fn push_u64(out: &mut Vec<u8>, x: u64)
    ensures
        final(out)@ == old(out)@ + enc_u64(x),
{
    let bs = u64_to_le_bytes(x);
    push_bytes(out, bs.as_slice());
}

/// Append a boolean byte.
pub fn push_bool(out: &mut Vec<u8>, v: bool)
    ensures
        final(out)@ == old(out)@ + enc_bool(v),
{
    out.push(if v { 1 } else { 0 });
    proof {
        assert(out@ =~= old(out)@ + enc_bool(v));
    }
}

/// Append a field name tag.
pub fn push_name(out: &mut Vec<u8>, name: &str)
    requires
        name@.len() < 256,
        name.is_ascii(),
    ensures
        final(out)@ == old(out)@ + enc_name(name@),
{
    proof {
        is_ascii_spec_bytes(name);
    }
    let bs = name.as_bytes();
    assert(bs@.len() == name@.len());
    out.push(bs.len() as u8);
    push_bytes(out, bs);
    proof {
        assert(out@ =~= old(out)@ + enc_name(name@));
    }
}

/// Append length-prefixed data.
pub fn push_data(out: &mut Vec<u8>, data: &[u8])
    ensures
        final(out)@ == old(out)@ + enc_bytes(data@),
{
    push_u64(out, data.len() as u64);
    push_bytes(out, data);
    proof {
        assert(out@ =~= old(out)@ + enc_bytes(data@));
    }
}

/// Append an optional integer.
pub fn push_opt_u64(out: &mut Vec<u8>, v: &Option<u64>)
    ensures
        final(out)@ == old(out)@ + enc_opt_u64(*v),
{
    match v {
        None => {
            out.push(0);
        },
        Some(x) => {
            out.push(1);
            push_u64(out, *x);
        },
    }
    proof {
        assert(out@ =~= old(out)@ + enc_opt_u64(*v));
    }
}

// ---------------------------------------------------------------------
// Executable readers
// ---------------------------------------------------------------------

/// Read one byte from the front.
pub fn read_byte<'a>(b: &'a [u8]) -> (r: Option<(u8, &'a [u8])>)
    ensures
        match r {
            Some((x, rest)) => rd_byte(b@) == Some((x, rest@)),
            None => rd_byte(b@) is None,
        },
{
    if b.len() >= 1 {
        let x = *slice_index_get(b, 0);
        let rest = slice_subrange(b, 1, b.len());
        proof {
            assert(rest@ =~= b@.skip(1));
        }
        Some((x, rest))
    } else {
        None
    }
}

/// Read a little-endian 64-bit integer from the front.
pub fn read_u64<'a>(b: &'a [u8]) -> (r: Option<(u64, &'a [u8])>)
    ensures
        match r {
            Some((x, rest)) => rd_u64(b@) == Some((x, rest@)),
            None => rd_u64(b@) is None,
        },
{
    if b.len() >= 8 {
        let x = u64_from_le_bytes(slice_subrange(b, 0, 8));
        let rest = slice_subrange(b, 8, b.len());
        proof {
            assert(b@.subrange(0, 8) =~= b@.take(8));
            assert(rest@ =~= b@.skip(8));
        }
        Some((x, rest))
    } else {
        None
    }
}

/// Read a boolean byte from the front.
pub fn read_bool<'a>(b: &'a [u8]) -> (r: Option<(bool, &'a [u8])>)
    ensures
        match r {
            Some((v, rest)) => rd_bool(b@) == Some((v, rest@)),
            None => rd_bool(b@) is None,
        },
{
    match read_byte(b) {
        Some((t, rest)) => {
            if t == 0 {
                Some((false, rest))
            } else if t == 1 {
                Some((true, rest))
            } else {
                None
            }
        },
        None => None,
    }
}

/// Read exactly `n` raw bytes from the front.
pub fn read_raw<'a>(b: &'a [u8], n: usize) -> (r: Option<(&'a [u8], &'a [u8])>)
    ensures
        match r {
            Some((data, rest)) => rd_raw(b@, n as int) == Some((data@, rest@)),
            None => rd_raw(b@, n as int) is None,
        },
{
    if n <= b.len() {
        let data = slice_subrange(b, 0, n);
        let rest = slice_subrange(b, n, b.len());
        proof {
            assert(data@ =~= b@.take(n as int));
            assert(rest@ =~= b@.skip(n as int));
        }
        Some((data, rest))
    } else {
        None
    }
}

/// Read length-prefixed data from the front.
pub fn read_data<'a>(b: &'a [u8]) -> (r: Option<(&'a [u8], &'a [u8])>)
    ensures
        match r {
            Some((data, rest)) => rd_bytes(b@) == Some((data@, rest@)),
            None => rd_bytes(b@) is None,
        },
{
    match read_u64(b) {
        Some((n, rest)) => {
            if n <= rest.len() as u64 {
                read_raw(rest, n as usize)
            } else {
                proof {
                    assert(rd_raw(rest@, n as int) is None);
                }
                None
            }
        },
        None => None,
    }
}

/// Read and check a field name tag from the front.
pub fn read_name<'a>(b: &'a [u8], name: &str) -> (r: Option<&'a [u8]>)
    requires
        name@.len() < 256,
        name.is_ascii(),
    ensures
        match r {
            Some(rest) => rd_name(b@, name@) == Some(rest@),
            None => rd_name(b@, name@) is None,
        },
{
    proof {
        is_ascii_spec_bytes(name);
    }
    let bs = name.as_bytes();
    let n = bs.len();
    if b.len() < 1 + n {
        return None;
    }
    if *slice_index_get(b, 0) != n as u8 {
        return None;
    }
    let mut i: usize = 0;
    while i < n
        invariant
            n == name@.len(),
            bs@ == ascii_bytes(name@),
            b@.len() >= 1 + n,
            i <= n,
            forall|j: int| 0 <= j < i ==> b@[1 + j] == bs@[j],
        decreases n - i,
    {
        if *slice_index_get(b, 1 + i) != *slice_index_get(bs, i) {
            proof {
                assert(b@.subrange(1, 1 + n as int)[i as int] != ascii_bytes(name@)[i as int]);
            }
            return None;
        }
        i = i + 1;
    }
    proof {
        assert(b@.subrange(1, 1 + n as int) =~= ascii_bytes(name@));
    }
    Some(slice_subrange(b, 1 + n, b.len()))
}

/// Append a slot status byte.
pub fn push_status(out: &mut Vec<u8>, s: &SlotStatus)
    ensures
        final(out)@ == old(out)@ + enc_status(*s),
{
    match s {
        SlotStatus::Processed => out.push(0),
        SlotStatus::Rooted => out.push(1),
        SlotStatus::Confirmed => out.push(2),
    }
    proof {
        assert(out@ =~= old(out)@ + enc_status(*s));
    }
}

/// Append an instruction position.
pub fn push_index(out: &mut Vec<u8>, ix: &InstructionIndex)
    ensures
        final(out)@ == old(out)@ + enc_index(*ix),
{
    match ix {
        InstructionIndex::TopLevel(i) => {
            out.push(0);
            push_u64(out, *i as u64);
        },
        InstructionIndex::Inner(p, c) => {
            out.push(1);
            out.push(*p);
            push_u64(out, *c as u64);
        },
    }
    proof {
        assert(out@ =~= old(out)@ + enc_index(*ix));
    }
}

/// Appending one key to an encoded list appends its bytes.
proof fn lemma_enc_key_list_snoc(ks: Seq<Seq<u8>>, k: Seq<u8>)
    ensures
        enc_key_list(ks.push(k)) == enc_key_list(ks) + k,
    decreases ks.len(),
{
    if ks.len() == 0 {
        assert(ks.push(k)[0] == k);
        assert(ks.push(k).drop_first() =~= Seq::<Seq<u8>>::empty());
        assert(enc_key_list(Seq::<Seq<u8>>::empty()) == Seq::<u8>::empty());
        assert(enc_key_list(ks.push(k)) == k + Seq::<u8>::empty());
        assert(k + Seq::<u8>::empty() =~= Seq::<u8>::empty() + k);
    } else {
        assert(ks.push(k).drop_first() =~= ks.drop_first().push(k));
        lemma_enc_key_list_snoc(ks.drop_first(), k);
        assert(ks.push(k)[0] == ks[0]);
        assert(enc_key_list(ks.push(k)) == ks[0] + (enc_key_list(ks.drop_first()) + k));
        assert(ks[0] + (enc_key_list(ks.drop_first()) + k) =~= (ks[0] + enc_key_list(
            ks.drop_first(),
        )) + k);
    }
}

/// Append a count-prefixed key list.
pub fn push_keys(out: &mut Vec<u8>, ks: &Vec<Pubkey>)
    ensures
        final(out)@ == old(out)@ + enc_keys(ks@.map_values(|k: Pubkey| k@)),
{
    let ghost views = ks@.map_values(|k: Pubkey| k@);
    let n = ks.len();
    push_u64(out, n as u64);
    proof {
        assert(views.len() == n);
    }
    let mut i: usize = 0;
    while i < n
        invariant
            n == ks@.len(),
            views == ks@.map_values(|k: Pubkey| k@),
            views.len() == n,
            i <= n,
            out@ == old(out)@ + enc_u64(n as u64) + enc_key_list(views.take(i as int)),
        decreases n - i,
    {
        push_bytes(out, ks[i].as_bytes().as_slice());
        proof {
            lemma_enc_key_list_snoc(views.take(i as int), views[i as int]);
            assert(views.take(i as int).push(views[i as int]) =~= views.take(i as int + 1));
            assert(out@ =~= old(out)@ + enc_u64(n as u64) + enc_key_list(views.take(i as int + 1)));
        }
        i = i + 1;
    }
    proof {
        assert(views.take(n as int) =~= views);
        assert(out@ =~= old(out)@ + enc_keys(views));
    }
}

/// Read an optional integer from the front.
pub fn read_opt_u64<'a>(b: &'a [u8]) -> (r: Option<(Option<u64>, &'a [u8])>)
    ensures
        match r {
            Some((v, rest)) => rd_opt_u64(b@) == Some((v, rest@)),
            None => rd_opt_u64(b@) is None,
        },
{
    match read_byte(b) {
        Some((t, rest)) => {
            if t == 0 {
                Some((None, rest))
            } else if t == 1 {
                match read_u64(rest) {
                    Some((x, rest2)) => Some((Some(x), rest2)),
                    None => None,
                }
            } else {
                None
            }
        },
        None => None,
    }
}

// ---------------------------------------------------------------------
// Message encoders and decoders
// ---------------------------------------------------------------------

/// Reveal every field name used by the wire format, with its length and
/// ASCII property.
proof fn reveal_field_names()
    ensures
        "key"@.len() < 256 && "key".is_ascii(),
        "lamports"@.len() < 256 && "lamports".is_ascii(),
        "owner"@.len() < 256 && "owner".is_ascii(),
        "executable"@.len() < 256 && "executable".is_ascii(),
        "rent_epoch"@.len() < 256 && "rent_epoch".is_ascii(),
        "data"@.len() < 256 && "data".is_ascii(),
        "write_version"@.len() < 256 && "write_version".is_ascii(),
        "slot"@.len() < 256 && "slot".is_ascii(),
        "is_startup"@.len() < 256 && "is_startup".is_ascii(),
        "program"@.len() < 256 && "program".is_ascii(),
        "accounts"@.len() < 256 && "accounts".is_ascii(),
        "txn_signature"@.len() < 256 && "txn_signature".is_ascii(),
        "index"@.len() < 256 && "index".is_ascii(),
        "parent"@.len() < 256 && "parent".is_ascii(),
        "status"@.len() < 256 && "status".is_ascii(),
{
    reveal_strlit("key");
    reveal_strlit("lamports");
    reveal_strlit("owner");
    reveal_strlit("executable");
    reveal_strlit("rent_epoch");
    reveal_strlit("data");
    reveal_strlit("write_version");
    reveal_strlit("slot");
    reveal_strlit("is_startup");
    reveal_strlit("program");
    reveal_strlit("accounts");
    reveal_strlit("txn_signature");
    reveal_strlit("index");
    reveal_strlit("parent");
    reveal_strlit("status");
}

/// Append an account-update record.
#[verifier::rlimit(100)]
pub fn encode_account_update(out: &mut Vec<u8>, a: &AccountUpdate)
    ensures
        final(out)@ == old(out)@ + spec_encode_account(a@),
{
    proof {
        reveal_field_names();
    }
    push_name(out, "key");
    push_bytes(out, a.key.as_bytes().as_slice());
    push_name(out, "lamports");
    push_u64(out, a.lamports);
    push_name(out, "owner");
    push_bytes(out, a.owner.as_bytes().as_slice());
    push_name(out, "executable");
    push_bool(out, a.executable);
    push_name(out, "rent_epoch");
    push_u64(out, a.rent_epoch);
    push_name(out, "data");
    push_data(out, a.data.as_slice());
    push_name(out, "write_version");
    push_u64(out, a.write_version);
    push_name(out, "slot");
    push_u64(out, a.slot);
    push_name(out, "is_startup");
    push_bool(out, a.is_startup);
    proof {
        assert(out@ =~= old(out)@ + spec_encode_account(a@));
    }
}

/// Append an instruction-notification record.
#[verifier::rlimit(100)]
pub fn encode_instruction_notify(out: &mut Vec<u8>, n: &InstructionNotify)
    ensures
        final(out)@ == old(out)@ + spec_encode_instruction(n@),
{
    proof {
        reveal_field_names();
    }
    push_name(out, "program");
    push_bytes(out, n.program.as_bytes().as_slice());
    push_name(out, "data");
    push_data(out, n.data.as_slice());
    push_name(out, "accounts");
    push_keys(out, &n.accounts);
    push_name(out, "slot");
    push_u64(out, n.slot);
    push_name(out, "txn_signature");
    push_data(out, n.txn_signature.as_slice());
    push_name(out, "index");
    push_index(out, &n.index);
    proof {
        assert(out@ =~= old(out)@ + spec_encode_instruction(n@));
    }
}

/// Append a slot-status record.
pub fn encode_slot_status_update(out: &mut Vec<u8>, s: &SlotStatusUpdate)
    ensures
        final(out)@ == old(out)@ + spec_encode_slot_status(*s),
{
    proof {
        reveal_field_names();
    }
    push_name(out, "slot");
    push_u64(out, s.slot);
    push_name(out, "parent");
    push_opt_u64(out, &s.parent);
    push_name(out, "status");
    push_status(out, &s.status);
    proof {
        assert(out@ =~= old(out)@ + spec_encode_slot_status(*s));
    }
}

/// Serialize a message into its wire envelope.
pub fn encode_message(m: &Message) -> (out: Vec<u8>)
    ensures
        out@ == spec_encode_message(m@),
{
    let mut out: Vec<u8> = Vec::new();
    match m {
        Message::AccountUpdate(a) => {
            out.push(0);
            encode_account_update(&mut out, a);
        },
        Message::InstructionNotify(n) => {
            out.push(1);
            encode_instruction_notify(&mut out, n);
        },
        Message::SlotStatusUpdate(s) => {
            out.push(2);
            encode_slot_status_update(&mut out, s);
        },
    }
    proof {
        assert(out@ =~= spec_encode_message(m@));
    }
    out
}

/// Read a 32-byte key from the front.
pub fn read_key<'a>(b: &'a [u8]) -> (r: Option<(Pubkey, &'a [u8])>)
    ensures
        match r {
            Some((k, rest)) => rd_key(b@) == Some((k@, rest@)) && k.wf(),
            None => rd_key(b@) is None,
        },
{
    match read_raw(b, 32) {
        Some((kb, rest)) => Some((Pubkey::from_bytes(slice_to_vec(kb)), rest)),
        None => None,
    }
}

/// Read a slot status byte from the front.
pub fn read_status<'a>(b: &'a [u8]) -> (r: Option<(SlotStatus, &'a [u8])>)
    ensures
        match r {
            Some((s, rest)) => rd_status(b@) == Some((s, rest@)),
            None => rd_status(b@) is None,
        },
{
    match read_byte(b) {
        Some((t, rest)) => {
            if t == 0 {
                Some((SlotStatus::Processed, rest))
            } else if t == 1 {
                Some((SlotStatus::Rooted, rest))
            } else if t == 2 {
                Some((SlotStatus::Confirmed, rest))
            } else {
                None
            }
        },
        None => None,
    }
}

/// Read an instruction position from the front.
pub fn read_index<'a>(b: &'a [u8]) -> (r: Option<(InstructionIndex, &'a [u8])>)
    ensures
        match r {
            Some((ix, rest)) => rd_index(b@) == Some((ix, rest@)),
            None => rd_index(b@) is None,
        },
{
    let (t, rest) = match read_byte(b) {
        Some(x) => x,
        None => {
            return None;
        },
    };
    if t == 0 {
        let (x, rest2) = match read_u64(rest) {
            Some(y) => y,
            None => {
                return None;
            },
        };
        if x <= usize::MAX as u64 {
            Some((InstructionIndex::TopLevel(x as usize), rest2))
        } else {
            None
        }
    } else if t == 1 {
        let (p, rest2) = match read_byte(rest) {
            Some(y) => y,
            None => {
                return None;
            },
        };
        let (c, rest3) = match read_u64(rest2) {
            Some(y) => y,
            None => {
                return None;
            },
        };
        if c <= usize::MAX as u64 {
            Some((InstructionIndex::Inner(p, c as usize), rest3))
        } else {
            None
        }
    } else {
        None
    }
}

/// Read a count-prefixed key list from the front.
pub fn read_keys<'a>(b: &'a [u8]) -> (r: Option<(Vec<Pubkey>, &'a [u8])>)
    ensures
        match r {
            Some((ks, rest)) => rd_keys(b@) == Some((ks@.map_values(|k: Pubkey| k@), rest@)),
            None => rd_keys(b@) is None,
        },
{
    let (n, first) = match read_u64(b) {
        Some(x) => x,
        None => {
            return None;
        },
    };
    let ghost b0 = first@;
    let mut cur = first;
    let mut ks: Vec<Pubkey> = Vec::new();
    let mut i: u64 = 0;
    while i < n
        invariant
            i <= n,
            ks@.len() == i,
            rd_u64(b@) == Some((n, b0)),
            match rd_key_list(cur@, (n - i) as nat) {
                Some((tail_ks, rest)) => rd_key_list(b0, n as nat) == Some(
                    (ks@.map_values(|k: Pubkey| k@) + tail_ks, rest),
                ),
                None => rd_key_list(b0, n as nat) is None,
            },
        decreases n - i,
    {
        let ghost pre_views = ks@.map_values(|k: Pubkey| k@);
        match read_key(cur) {
            Some((k, rest)) => {
                proof {
                    let tail_n = (n - i - 1) as nat;
                    if let Some((tail_ks, fin)) = rd_key_list(rest@, tail_n) {
                        assert(rd_key_list(cur@, (n - i) as nat) == Some(
                            (seq![k@] + tail_ks, fin),
                        ));
                        assert(pre_views + (seq![k@] + tail_ks) =~= pre_views.push(k@) + tail_ks);
                        assert(ks@.push(k).map_values(|x: Pubkey| x@) =~= pre_views.push(k@));
                    }
                }
                ks.push(k);
                cur = rest;
            },
            None => {
                proof {
                    assert(rd_key_list(cur@, (n - i) as nat) is None);
                }
                return None;
            },
        }
        i = i + 1;
    }
    proof {
        assert(rd_key_list(cur@, 0) == Some((Seq::<Seq<u8>>::empty(), cur@)));
        assert(ks@.map_values(|k: Pubkey| k@) + Seq::<Seq<u8>>::empty() =~= ks@.map_values(
            |k: Pubkey| k@,
        ));
    }
    Some((ks, cur))
}

/// Decode an account-update record from the front.
pub fn decode_account_update<'a>(b: &'a [u8]) -> (r: Option<(AccountUpdate, &'a [u8])>)
    ensures
        match r {
            Some((a, rest)) => spec_decode_account(b@) == Some((a@, rest@)),
            None => spec_decode_account(b@) is None,
        },
{
    proof {
        reveal_field_names();
    }
    let b = match read_name(b, "key") {
        Some(x) => x,
        None => {
            return None;
        },
    };
    let (key, b) = match read_key(b) {
        Some(x) => x,
        None => {
            return None;
        },
    };
    let b = match read_name(b, "lamports") {
        Some(x) => x,
        None => {
            return None;
        },
    };
    let (lamports, b) = match read_u64(b) {
        Some(x) => x,
        None => {
            return None;
        },
    };
    let b = match read_name(b, "owner") {
        Some(x) => x,
        None => {
            return None;
        },
    };
    let (owner, b) = match read_key(b) {
        Some(x) => x,
        None => {
            return None;
        },
    };
    let b = match read_name(b, "executable") {
        Some(x) => x,
        None => {
            return None;
        },
    };
    let (executable, b) = match read_bool(b) {
        Some(x) => x,
        None => {
            return None;
        },
    };
    let b = match read_name(b, "rent_epoch") {
        Some(x) => x,
        None => {
            return None;
        },
    };
    let (rent_epoch, b) = match read_u64(b) {
        Some(x) => x,
        None => {
            return None;
        },
    };
    let b = match read_name(b, "data") {
        Some(x) => x,
        None => {
            return None;
        },
    };
    let (data, b) = match read_data(b) {
        Some(x) => x,
        None => {
            return None;
        },
    };
    let b = match read_name(b, "write_version") {
        Some(x) => x,
        None => {
            return None;
        },
    };
    let (write_version, b) = match read_u64(b) {
        Some(x) => x,
        None => {
            return None;
        },
    };
    let b = match read_name(b, "slot") {
        Some(x) => x,
        None => {
            return None;
        },
    };
    let (slot, b) = match read_u64(b) {
        Some(x) => x,
        None => {
            return None;
        },
    };
    let b = match read_name(b, "is_startup") {
        Some(x) => x,
        None => {
            return None;
        },
    };
    let (is_startup, b) = match read_bool(b) {
        Some(x) => x,
        None => {
            return None;
        },
    };
    Some(
        (
            AccountUpdate {
                key,
                lamports,
                owner,
                executable,
                rent_epoch,
                data: slice_to_vec(data),
                write_version,
                slot,
                is_startup,
            },
            b,
        ),
    )
}

/// Decode an instruction-notification record from the front.
pub fn decode_instruction_notify<'a>(b: &'a [u8]) -> (r: Option<(InstructionNotify, &'a [u8])>)
    ensures
        match r {
            Some((n, rest)) => spec_decode_instruction(b@) == Some((n@, rest@)),
            None => spec_decode_instruction(b@) is None,
        },
{
    proof {
        reveal_field_names();
    }
    let b = match read_name(b, "program") {
        Some(x) => x,
        None => {
            return None;
        },
    };
    let (program, b) = match read_key(b) {
        Some(x) => x,
        None => {
            return None;
        },
    };
    let b = match read_name(b, "data") {
        Some(x) => x,
        None => {
            return None;
        },
    };
    let (data, b) = match read_data(b) {
        Some(x) => x,
        None => {
            return None;
        },
    };
    let b = match read_name(b, "accounts") {
        Some(x) => x,
        None => {
            return None;
        },
    };
    let (accounts, b) = match read_keys(b) {
        Some(x) => x,
        None => {
            return None;
        },
    };
    let b = match read_name(b, "slot") {
        Some(x) => x,
        None => {
            return None;
        },
    };
    let (slot, b) = match read_u64(b) {
        Some(x) => x,
        None => {
            return None;
        },
    };
    let b = match read_name(b, "txn_signature") {
        Some(x) => x,
        None => {
            return None;
        },
    };
    let (txn_signature, b) = match read_data(b) {
        Some(x) => x,
        None => {
            return None;
        },
    };
    let b = match read_name(b, "index") {
        Some(x) => x,
        None => {
            return None;
        },
    };
    let (index, b) = match read_index(b) {
        Some(x) => x,
        None => {
            return None;
        },
    };
    Some(
        (
            InstructionNotify {
                program,
                data: slice_to_vec(data),
                accounts,
                slot,
                txn_signature: slice_to_vec(txn_signature),
                index,
            },
            b,
        ),
    )
}

/// Decode a slot-status record from the front.
pub fn decode_slot_status_update<'a>(b: &'a [u8]) -> (r: Option<(SlotStatusUpdate, &'a [u8])>)
    ensures
        match r {
            Some((s, rest)) => spec_decode_slot_status(b@) == Some((s, rest@)),
            None => spec_decode_slot_status(b@) is None,
        },
{
    proof {
        reveal_field_names();
    }
    let b = match read_name(b, "slot") {
        Some(x) => x,
        None => {
            return None;
        },
    };
    let (slot, b) = match read_u64(b) {
        Some(x) => x,
        None => {
            return None;
        },
    };
    let b = match read_name(b, "parent") {
        Some(x) => x,
        None => {
            return None;
        },
    };
    let (parent, b) = match read_opt_u64(b) {
        Some(x) => x,
        None => {
            return None;
        },
    };
    let b = match read_name(b, "status") {
        Some(x) => x,
        None => {
            return None;
        },
    };
    let (status, b) = match read_status(b) {
        Some(x) => x,
        None => {
            return None;
        },
    };
    Some((SlotStatusUpdate { slot, parent, status }, b))
}

/// Deserialize a message from its wire envelope; trailing bytes are
/// rejected.
pub fn decode_message(b: &[u8]) -> (r: Option<Message>)
    ensures
        match r {
            Some(m) => spec_decode_message(b@) == Some(m@),
            None => spec_decode_message(b@) is None,
        },
{
    let (tag, rest) = match read_byte(b) {
        Some(x) => x,
        None => {
            return None;
        },
    };
    if tag == 0 {
        match decode_account_update(rest) {
            Some((a, rest2)) => {
                if rest2.len() == 0 {
                    Some(Message::AccountUpdate(a))
                } else {
                    None
                }
            },
            None => None,
        }
    } else if tag == 1 {
        match decode_instruction_notify(rest) {
            Some((n, rest2)) => {
                if rest2.len() == 0 {
                    Some(Message::InstructionNotify(n))
                } else {
                    None
                }
            },
            None => None,
        }
    } else if tag == 2 {
        match decode_slot_status_update(rest) {
            Some((s, rest2)) => {
                if rest2.len() == 0 {
                    Some(Message::SlotStatusUpdate(s))
                } else {
                    None
                }
            },
            None => None,
        }
    } else {
        None
    }
}

} // verus!
