//! On-chain addresses and the fixed-layout token-account record.
//!
//! An address is a 32-byte identity compared by exact bytes.  Address
//! allow-lists are kept as plain vectors of keys; membership is defined over
//! the byte sequences alone, so duplicates and ordering are irrelevant.

use vstd::prelude::*;
use vstd::bytes::spec_u64_from_le_bytes;
use vstd::bytes::u64_from_le_bytes;
use vstd::slice::slice_index_get;
use vstd::slice::slice_subrange;
use vstd::slice::slice_to_vec;
use vstd::std_specs::cmp::PartialEqSpec;

verus! {

/// Number of bytes in an on-chain address.
pub const KEY_LEN: usize = 32;

/// A 32-byte on-chain address, compared by exact bytes.
#[derive(Debug)]
pub struct Pubkey {
    bytes: Vec<u8>,
}

impl View for Pubkey {
    type V = Seq<u8>;

    closed spec fn view(&self) -> Seq<u8> {
        self.bytes@
    }
}

impl Pubkey {
    /// A key is well-formed when it holds exactly 32 bytes.
    pub open spec fn wf(&self) -> bool {
        self@.len() == KEY_LEN
    }

    /// Wrap 32 raw bytes as an address.
    pub fn from_bytes(bytes: Vec<u8>) -> (r: Pubkey)
        requires
            bytes@.len() == KEY_LEN,
        ensures
            r@ == bytes@,
            r.wf(),
    {
        Pubkey { bytes }
    }

    /// Wrap raw bytes as an address, or report that the count is wrong:
    /// exactly 32 bytes make a key.
    pub fn try_from_bytes(bytes: Vec<u8>) -> (r: Option<Pubkey>)
        ensures
            match r {
                Some(k) => bytes@.len() == KEY_LEN && k@ == bytes@ && k.wf(),
                None => bytes@.len() != KEY_LEN,
            },
    {
        if bytes.len() == KEY_LEN {
            Some(Pubkey { bytes })
        } else {
            None
        }
    }

    /// The raw bytes of this address.
    pub fn as_bytes(&self) -> (r: &Vec<u8>)
        ensures
            r@ == self@,
    {
        &self.bytes
    }
}

impl Clone for Pubkey {
    fn clone(&self) -> (r: Self)
        ensures
            r@ == self@,
    {
        Pubkey { bytes: self.bytes.clone() }
    }
}

/// Byte-for-byte equality of two addresses.
pub fn key_eq(a: &Pubkey, b: &Pubkey) -> (r: bool)
    ensures
        r <==> a@ == b@,
{
    let r = a.as_bytes() == b.as_bytes();
    proof {
        if a.bytes.eq_spec(&b.bytes) {
            assert(a@ =~= b@);
        }
        if a@ == b@ {
            assert(a.bytes.eq_spec(&b.bytes));
        }
    }
    r
}

/// Byte-for-byte equality of two byte strings.
pub fn bytes_eq(a: &[u8], b: &[u8]) -> (r: bool)
    ensures
        r <==> a@ == b@,
{
    if a.len() != b.len() {
        return false;
    }
    let n = a.len();
    let mut i: usize = 0;
    while i < n
        invariant
            n == a@.len() == b@.len(),
            i <= n,
            forall|j: int| 0 <= j < i ==> a@[j] == b@[j],
        decreases n - i,
    {
        if *slice_index_get(a, i) != *slice_index_get(b, i) {
            return false;
        }
        i = i + 1;
    }
    proof {
        assert(a@ =~= b@);
    }
    true
}

/// Membership of a byte string in a list of addresses.
pub open spec fn has_key(keys: Seq<Pubkey>, k: Seq<u8>) -> bool {
    exists|i: int| 0 <= i < keys.len() && keys[i]@ == k
}

/// Every key in the list holds exactly 32 bytes.
pub open spec fn all_keys_wf(keys: Seq<Pubkey>) -> bool {
    forall|i: int| 0 <= i < keys.len() ==> (#[trigger] keys[i]).wf()
}

/// The byte sequences of the keys in a list, in order.
pub open spec fn key_views(keys: Seq<Pubkey>) -> Seq<Seq<u8>> {
    keys.map_values(|k: Pubkey| k@)
}

/// Membership depends only on the keys' byte sequences: two lists with the
/// same views contain the same addresses.
pub proof fn lemma_has_key_depends_on_views(a: Seq<Pubkey>, b: Seq<Pubkey>, k: Seq<u8>)
    requires
        key_views(a) == key_views(b),
    ensures
        has_key(a, k) == has_key(b, k),
{
    assert(a.len() == b.len()) by {
        assert(key_views(a).len() == a.len());
        assert(key_views(b).len() == b.len());
    }
    if has_key(a, k) {
        let i = choose|i: int| 0 <= i < a.len() && a[i]@ == k;
        assert(key_views(b)[i] == b[i]@);
        assert(b[i]@ == k);
    }
    if has_key(b, k) {
        let i = choose|i: int| 0 <= i < b.len() && b[i]@ == k;
        assert(key_views(a)[i] == a[i]@);
        assert(a[i]@ == k);
    }
}

/// Linear scan deciding membership of an address in an allow-list.
pub fn contains_key(keys: &Vec<Pubkey>, k: &Pubkey) -> (r: bool)
    ensures
        r == has_key(keys@, k@),
{
    let n = keys.len();
    let mut i: usize = 0;
    while i < n
        invariant
            n == keys@.len(),
            i <= n,
            forall|j: int| 0 <= j < i ==> keys@[j]@ != k@,
        decreases n - i,
    {
        if key_eq(&keys[i], k) {
            return true;
        }
        i = i + 1;
    }
    false
}

/// Linear scan deciding membership of a raw byte string in an allow-list.
pub fn contains_bytes(keys: &Vec<Pubkey>, k: &[u8]) -> (r: bool)
    ensures
        r == has_key(keys@, k@),
{
    let n = keys.len();
    let mut i: usize = 0;
    while i < n
        invariant
            n == keys@.len(),
            i <= n,
            forall|j: int| 0 <= j < i ==> keys@[j]@ != k@,
        decreases n - i,
    {
        if bytes_eq(keys[i].as_bytes().as_slice(), k) {
            return true;
        }
        i = i + 1;
    }
    false
}

/// The well-known address of the on-chain token program.
pub open spec fn token_program_key() -> Seq<u8> {
    seq![
        6u8, 221u8, 246u8, 225u8, 215u8, 101u8, 161u8, 147u8, 217u8, 203u8, 225u8, 70u8, 206u8,
        235u8, 121u8, 172u8, 28u8, 180u8, 133u8, 237u8, 95u8, 91u8, 55u8, 145u8, 58u8, 140u8,
        245u8, 133u8, 126u8, 255u8, 0u8, 169u8,
    ]
}

/// The token program's address as a value.
pub fn token_program_pubkey() -> (k: Pubkey)
    ensures
        k.wf(),
        k@ == token_program_key(),
{
    let bytes: Vec<u8> = vec![
        6u8, 221u8, 246u8, 225u8, 215u8, 101u8, 161u8, 147u8, 217u8, 203u8, 225u8, 70u8, 206u8,
        235u8, 121u8, 172u8, 28u8, 180u8, 133u8, 237u8, 95u8, 91u8, 55u8, 145u8, 58u8, 140u8,
        245u8, 133u8, 126u8, 255u8, 0u8, 169u8,
    ];
    proof {
        assert(bytes@ =~= token_program_key());
    }
    Pubkey::from_bytes(bytes)
}

/// What parsing an address string yields: the 32 decoded bytes, or nothing
/// when the string is not the base-58 form of exactly 32 bytes.  The result
/// depends on the characters alone.
pub uninterp spec fn parsed_key(s: Seq<char>) -> Option<Seq<u8>>;

/// Relies on `solana_program::pubkey::Pubkey`'s `FromStr`: base-58 decoding
/// that yields exactly 32 bytes on success and an error otherwise, a pure
/// function of the input string.
#[verifier::external_body]
fn parse_key_raw(s: &str) -> (r: Option<Vec<u8>>)
    ensures
        match r {
            Some(b) => parsed_key(s@) == Some(b@) && b@.len() == KEY_LEN,
            None => parsed_key(s@) is None,
        },
{
    s.parse::<solana_program::pubkey::Pubkey>().ok().map(|k| k.to_bytes().to_vec())
}

/// Parse an address from its base-58 string form.
pub fn parse_pubkey(s: &str) -> (r: Option<Pubkey>)
    ensures
        match r {
            Some(k) => k.wf() && parsed_key(s@) == Some(k@),
            None => parsed_key(s@) is None,
        },
{
    match parse_key_raw(s) {
        Some(bytes) => Some(Pubkey::from_bytes(bytes)),
        None => None,
    }
}

/// Every string in the list parses as an address.
pub open spec fn all_parse(list: Seq<String>) -> bool {
    forall|i: int| 0 <= i < list.len() ==> parsed_key((#[trigger] list[i])@) is Some
}

/// Parse a list of address strings into keys, or return the first string
/// that fails to parse.
pub fn parse_key_list(list: &Vec<String>) -> (r: Result<Vec<Pubkey>, String>)
    ensures
        (r is Ok) == all_parse(list@),
        match r {
            Ok(keys) => {
                &&& all_keys_wf(keys@)
                &&& keys@.len() == list@.len()
                &&& forall|i: int|
                    0 <= i < list@.len() ==> parsed_key(list@[i]@) == Some(
                        (#[trigger] keys@[i])@,
                    )
            },
            Err(s) => parsed_key(s@) is None && exists|i: int|
                0 <= i < list@.len() && (#[trigger] list@[i])@ == s@,
        },
{
    let n = list.len();
    let mut keys: Vec<Pubkey> = Vec::new();
    let mut i: usize = 0;
    while i < n
        invariant
            n == list@.len(),
            i <= n,
            keys@.len() == i,
            all_keys_wf(keys@),
            forall|j: int| 0 <= j < i ==> parsed_key(list@[j]@) == Some((#[trigger] keys@[j])@),
        decreases n - i,
    {
        match parse_pubkey(list[i].as_str()) {
            Some(k) => {
                keys.push(k);
            },
            None => {
                proof {
                    assert(parsed_key(list@[i as int]@) is None);
                    assert(!all_parse(list@));
                }
                return Err(list[i].clone());
            },
        }
        i = i + 1;
    }
    proof {
        assert forall|j: int| 0 <= j < list@.len() implies parsed_key(
            (#[trigger] list@[j])@,
        ) is Some by {
            assert(parsed_key(list@[j]@) == Some(keys@[j]@));
        }
    }
    Ok(keys)
}

/// Exact byte length of a token-account record.
pub const TOKEN_RECORD_LEN: usize = 165;

/// The fields of a token-account record that selection reads.
#[derive(Debug)]
pub struct TokenRecord {
    /// The token type held by the account.
    pub mint: Pubkey,
    /// The number of units held.
    pub amount: u64,
}

/// A valid encoding of an optional field: a 4-byte tag that is 0 or 1
/// followed by zeroes.
pub open spec fn coption_tag_valid(tag: Seq<u8>) -> bool {
    &&& tag.len() == 4
    &&& (tag[0] == 0 || tag[0] == 1)
    &&& tag[1] == 0
    &&& tag[2] == 0
    &&& tag[3] == 0
}

/// Whether the bytes have the exact shape of a token-account record: the
/// fixed length, a known account-state byte, and well-formed optional-field
/// tags.
pub open spec fn token_record_valid(data: Seq<u8>) -> bool {
    &&& data.len() == TOKEN_RECORD_LEN
    &&& coption_tag_valid(data.subrange(72, 76))
    &&& data[108] <= 2
    &&& coption_tag_valid(data.subrange(109, 113))
    &&& coption_tag_valid(data.subrange(129, 133))
}

/// The mint field of a token-account record.
pub open spec fn token_mint(data: Seq<u8>) -> Seq<u8> {
    data.subrange(0, KEY_LEN as int)
}

/// The amount field of a token-account record.
pub open spec fn token_amount(data: Seq<u8>) -> u64 {
    spec_u64_from_le_bytes(data.subrange(64, 72))
}

/// How the selector interprets an account as a token holding: only an
/// account owned by the token program whose data has the exact record shape
/// counts; anything else is simply not a token account.
pub open spec fn interp_token(owner: Seq<u8>, data: Seq<u8>) -> Option<(Seq<u8>, u64)> {
    if owner == token_program_key() && token_record_valid(data) {
        Some((token_mint(data), token_amount(data)))
    } else {
        None
    }
}

/// Check one optional-field tag at the given offset.
fn check_coption_tag(data: &[u8], off: usize) -> (r: bool)
    requires
        off + 4 <= data@.len(),
    ensures
        r == coption_tag_valid(data@.subrange(off as int, off as int + 4)),
{
    let _n: usize = data.len();
    let t0 = *slice_index_get(data, off);
    let t1 = *slice_index_get(data, off + 1);
    let t2 = *slice_index_get(data, off + 2);
    let t3 = *slice_index_get(data, off + 3);
    (t0 == 0 || t0 == 1) && t1 == 0 && t2 == 0 && t3 == 0
}

/// Decode the mint and amount of a token-account record, or report that the
/// bytes do not have the record's shape.  A mismatch is an expected outcome,
/// never an error.
pub fn parse_token_record(data: &[u8]) -> (r: Option<TokenRecord>)
    ensures
        match r {
            Some(t) => {
                &&& token_record_valid(data@)
                &&& t.mint.wf()
                &&& t.mint@ == token_mint(data@)
                &&& t.amount == token_amount(data@)
            },
            None => !token_record_valid(data@),
        },
{
    if data.len() != TOKEN_RECORD_LEN {
        return None;
    }
    if !check_coption_tag(data, 72) {
        return None;
    }
    if *slice_index_get(data, 108) > 2 {
        return None;
    }
    if !check_coption_tag(data, 109) {
        return None;
    }
    if !check_coption_tag(data, 129) {
        return None;
    }
    let mint_bytes = slice_to_vec(slice_subrange(data, 0, KEY_LEN));
    let amount = u64_from_le_bytes(slice_subrange(data, 64, 72));
    Some(TokenRecord { mint: Pubkey::from_bytes(mint_bytes), amount })
}

/// A payload one byte shorter or longer than the exact token-record size —
/// indeed any length other than the exact size — is treated as "not a token
/// account", never as a failure.
pub proof fn lemma_token_record_size_boundary(owner: Seq<u8>, data: Seq<u8>)
    requires
        data.len() != TOKEN_RECORD_LEN,
    ensures
        interp_token(owner, data) is None,
{
}

} // verus!
