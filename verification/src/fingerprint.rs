//! The per-identity fingerprinting scheme and the reverse lookup.
//!
//! A fingerprint is the lowercase hex form of the blake2b-256 digest of a
//! secret token and the submitter's identity, serialized and concatenated in
//! that fixed order. The reverse lookup searches the catalog for the row
//! whose fingerprint matches a claimed one and recovers that row's blend
//! sequence.

use vstd::prelude::*;

use blake2::digest::Update;
use blake2::digest::VariableOutput;
use vstd::utf8::encode_utf8;

use crate::catalog::CATALOG_LEN;
use crate::catalog::all_entries;
use crate::catalog::catalog_sequence;
use crate::catalog::catalog_token;
use crate::catalog::lemma_catalog_token_len;
use crate::scoring::BlendSequence;

verus! {

/// The longest UTF-8 byte length the scheme serializes: what the four-byte
/// little-endian length prefix can carry.
pub const MAX_SERIALIZED_BYTES: usize = 0xFFFF_FFFF;

/// Whether a string of this view fits the serializer: its UTF-8 byte length,
/// as the machine measures it, stays within what the length prefix carries.
pub open spec fn fits_serialization(s: Seq<char>) -> bool {
    encode_utf8(s).len() as usize <= MAX_SERIALIZED_BYTES
}

/// The four little-endian bytes of the length `n`.
pub open spec fn le32_bytes(n: int) -> Seq<u8> {
    seq![
        (n % 256) as u8,
        ((n / 256) % 256) as u8,
        ((n / 65536) % 256) as u8,
        ((n / 16777216) % 256) as u8,
    ]
}

/// How a string is serialized before hashing: a four-byte little-endian
/// length prefix followed by the UTF-8 bytes of the string.
pub open spec fn tagged_bytes_of(s: Seq<char>) -> Seq<u8> {
    le32_bytes(encode_utf8(s).len() as int) + encode_utf8(s)
}

/// Relies on `casper_types::bytesrepr::ToBytes` for `str`: the serialized
/// form is a four-byte little-endian length prefix followed by the string's
/// UTF-8 bytes. The length bound keeps the byte length below what the
/// prefix can carry, so serialization cannot fail.
#[verifier::external_body]
fn serialize_str(s: &str) -> (r: Vec<u8>)
    requires
        fits_serialization(s@),
    ensures
        r@ == tagged_bytes_of(s@),
{
    <str as casper_types::bytesrepr::ToBytes>::to_bytes(s).unwrap()
}

/// The 32-byte digest that blake2b-256 assigns to `input`; a function of the
/// input bytes alone.
pub uninterp spec fn blake2b_digest(input: Seq<u8>) -> Seq<u8>;

/// Relies on `blake2::Blake2bVar` with a 32-byte output: the digest depends
/// on the input bytes alone and is exactly 32 bytes long.
#[verifier::external_body]
fn blake2b_hash(input: &[u8]) -> (r: Vec<u8>)
    ensures
        r@ == blake2b_digest(input@),
        r@.len() == 32,
{
    let mut hasher = blake2::Blake2bVar::new(32).unwrap();
    hasher.update(input);
    let mut out = [0u8; 32];
    hasher.finalize_variable(&mut out).unwrap();
    out.to_vec()
}

/// The lowercase hexadecimal digit for `v`, which must lie in 0 to 15.
pub open spec fn hex_digit(v: int) -> char {
    if v == 0 { '0' }
    else if v == 1 { '1' }
    else if v == 2 { '2' }
    else if v == 3 { '3' }
    else if v == 4 { '4' }
    else if v == 5 { '5' }
    else if v == 6 { '6' }
    else if v == 7 { '7' }
    else if v == 8 { '8' }
    else if v == 9 { '9' }
    else if v == 10 { 'a' }
    else if v == 11 { 'b' }
    else if v == 12 { 'c' }
    else if v == 13 { 'd' }
    else if v == 14 { 'e' }
    else { 'f' }
}

/// The lowercase hexadecimal rendering of `bytes`: two digits per byte, high
/// nibble first.
pub open spec fn hex_of(bytes: Seq<u8>) -> Seq<char>
    decreases bytes.len(),
{
    if bytes.len() == 0 {
        Seq::empty()
    } else {
        seq![hex_digit(bytes[0] as int / 16), hex_digit(bytes[0] as int % 16)]
            + hex_of(bytes.drop_first())
    }
}

/// Relies on `hex::encode`: the result is the lowercase hexadecimal form of
/// the input, two digits per byte, high nibble first.
#[verifier::external_body]
fn hex_encode(bytes: &[u8]) -> (r: String)
    ensures
        r@ == hex_of(bytes@),
{
    hex::encode(bytes)
}

/// The fingerprint that `identity` produces from the secret `token`: the
/// lowercase hex form of the blake2b-256 digest of the serialized token
/// followed by the serialized identity.
pub open spec fn fingerprint_of(token: Seq<char>, identity: Seq<char>) -> Seq<char> {
    hex_of(blake2b_digest(tagged_bytes_of(token) + tagged_bytes_of(identity)))
}

/// Computes the fingerprint that `identity` produces from the secret
/// `token`. Mixing the identity into the hash input makes the same token
/// yield a different fingerprint per identity, so one identity's published
/// fingerprint cannot be replayed verbatim by another identity.
pub fn fingerprint(token: &str, identity: &str) -> (r: String)
    requires
        fits_serialization(token@),
        fits_serialization(identity@),
    ensures
        r@ == fingerprint_of(token@, identity@),
{
    let mut input = serialize_str(token);
    let mut identity_bytes = serialize_str(identity);
    input.append(&mut identity_bytes);
    let digest = blake2b_hash(input.as_slice());
    hex_encode(digest.as_slice())
}

/// What the reverse lookup yields from catalog row `i` onward: the sequence
/// of the first row at or after `i` whose fingerprint for `identity` equals
/// `claimed`, or nothing when no such row exists.
pub open spec fn resolve_from(identity: Seq<char>, claimed: Seq<char>, i: int) -> Option<
    BlendSequence,
>
    decreases CATALOG_LEN - i when i <= CATALOG_LEN
{
    if i < 0 || i >= CATALOG_LEN {
        None
    } else if fingerprint_of(catalog_token(i), identity) == claimed {
        Some(catalog_sequence(i))
    } else {
        resolve_from(identity, claimed, i + 1)
    }
}

/// The reverse lookup over the whole catalog: the sequence of the first
/// matching row, or nothing when the fingerprint is unrecognized.
pub open spec fn resolve_of(identity: Seq<char>, claimed: Seq<char>) -> Option<BlendSequence> {
    resolve_from(identity, claimed, 0)
}

/// Recovers the blend sequence that `identity` must have used to produce the
/// claimed fingerprint: searches the catalog in order and returns the first
/// row whose fingerprint for `identity` equals `claimed`, case-sensitively.
/// Returns `None` when no row matches; an unrecognized fingerprint is a
/// valid-but-unresolvable input, not an error.
pub fn resolve(identity: &str, claimed: &str) -> (r: Option<BlendSequence>)
    requires
        fits_serialization(identity@),
    ensures
        r == resolve_of(identity@, claimed@),
{
    let entries = all_entries();
    let claimed_owned: String = claimed.to_owned();
    let mut i: usize = 0;
    while i < entries.len()
        invariant
            0 <= i <= entries@.len(),
            entries@.len() == CATALOG_LEN,
            forall|j: int| 0 <= j < CATALOG_LEN ==> (#[trigger] entries@[j]).token@
                == catalog_token(j),
            forall|j: int| 0 <= j < CATALOG_LEN ==> (#[trigger] entries@[j]).sequence
                == catalog_sequence(j),
            fits_serialization(identity@),
            claimed_owned@ == claimed@,
            resolve_from(identity@, claimed@, 0) == resolve_from(identity@, claimed@, i as int),
        decreases entries@.len() - i,
    {
        let entry = entries[i];
        proof {
            lemma_catalog_token_len(i as int);
        }
        let fp = fingerprint(entry.token, identity);
        if fp == claimed_owned {
            return Some(entry.sequence);
        }
        i = i + 1;
    }
    None
}

/// Law: a fingerprint honestly produced from catalog row `i` by `identity`
/// resolves back to that row's sequence, provided no earlier row's
/// fingerprint for the same identity collides with it. The proviso is the
/// scheme's collision-freedom intent: the hash being one-way, it cannot be
/// established from within the library, only observed.
pub proof fn lemma_resolve_roundtrip(identity: Seq<char>, i: int)
    requires
        0 <= i < CATALOG_LEN,
        forall|j: int| 0 <= j < i ==> fingerprint_of(#[trigger] catalog_token(j), identity)
            != fingerprint_of(catalog_token(i), identity),
    ensures
        resolve_of(identity, fingerprint_of(catalog_token(i), identity)) == Some(
            catalog_sequence(i),
        ),
{
    lemma_resolve_from_roundtrip(identity, i, 0);
}

/// Induction step for [`lemma_resolve_roundtrip`]: the search started at row
/// `k` skips every non-matching row before `i` and stops at `i`.
proof fn lemma_resolve_from_roundtrip(identity: Seq<char>, i: int, k: int)
    requires
        0 <= k <= i < CATALOG_LEN,
        forall|j: int| k <= j < i ==> fingerprint_of(#[trigger] catalog_token(j), identity)
            != fingerprint_of(catalog_token(i), identity),
    ensures
        resolve_from(identity, fingerprint_of(catalog_token(i), identity), k) == Some(
            catalog_sequence(i),
        ),
    decreases i - k,
{
    if k < i {
        lemma_resolve_from_roundtrip(identity, i, k + 1);
    }
}

} // verus!
