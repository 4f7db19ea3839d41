//! The fixed catalog of recognized secret tokens.
//!
//! The catalog is a hardcoded partial enumeration: exactly 23 rows, each
//! pairing a secret token with the blend sequence it stands for. Only 23 of
//! the 27 possible three-choice sequences appear; a sequence absent from the
//! catalog is unreachable through the fingerprinting scheme. The table is a
//! compile-time constant and is never mutated at runtime.

use vstd::prelude::*;

use crate::scoring::BlendSequence;
use crate::scoring::Choice;

verus! {

/// Number of rows in the fingerprint catalog.
pub const CATALOG_LEN: usize = 23;

/// A catalog row: a secret token and the blend sequence it stands for.
#[derive(Clone, Copy, Debug)]
pub struct FingerprintEntry {
    /// The secret token whose per-identity hash is a valid fingerprint.
    pub token: &'static str,
    /// The three-choice sequence that the token commits to.
    pub sequence: BlendSequence,
}

/// Shorthand for a blend sequence in specifications.
pub open spec fn triple(a: Choice, b: Choice, c: Choice) -> BlendSequence {
    BlendSequence { first: a, second: b, third: c }
}

/// The secret token of catalog row `i`.
pub open spec fn catalog_token(i: int) -> Seq<char> {
    if i == 0 { "a8241dee1b"@ }
    else if i == 1 { "9c3ef738a5"@ }
    else if i == 2 { "9c4bea65e9"@ }
    else if i == 3 { "038e16cdf9"@ }
    else if i == 4 { "481ddbfbe9"@ }
    else if i == 5 { "69343e02fa"@ }
    else if i == 6 { "1af577cdd3"@ }
    else if i == 7 { "f070fae536"@ }
    else if i == 8 { "686690db1f"@ }
    else if i == 9 { "f611d744c5"@ }
    else if i == 10 { "444c34bf26"@ }
    else if i == 11 { "5463570d5e"@ }
    else if i == 12 { "8aa9d396ea"@ }
    else if i == 13 { "76a27a71ee"@ }
    else if i == 14 { "41f3de6eed"@ }
    else if i == 15 { "d999fb7fe8"@ }
    else if i == 16 { "8792ba8121"@ }
    else if i == 17 { "68d0ea14ef"@ }
    else if i == 18 { "c11af4a478"@ }
    else if i == 19 { "823f07b380"@ }
    else if i == 20 { "4432146540"@ }
    else if i == 21 { "0f1514d671"@ }
    else if i == 22 { "62d63583cb"@ }
    else { Seq::empty() }
}

/// The blend sequence of catalog row `i`.
pub open spec fn catalog_sequence(i: int) -> BlendSequence {
    if i == 0 { triple(Choice::Rock, Choice::Rock, Choice::Rock) }
    else if i == 1 { triple(Choice::Paper, Choice::Rock, Choice::Rock) }
    else if i == 2 { triple(Choice::Scissors, Choice::Rock, Choice::Rock) }
    else if i == 3 { triple(Choice::Rock, Choice::Paper, Choice::Rock) }
    else if i == 4 { triple(Choice::Rock, Choice::Scissors, Choice::Rock) }
    else if i == 5 { triple(Choice::Rock, Choice::Rock, Choice::Paper) }
    else if i == 6 { triple(Choice::Rock, Choice::Rock, Choice::Scissors) }
    else if i == 7 { triple(Choice::Paper, Choice::Paper, Choice::Paper) }
    else if i == 8 { triple(Choice::Rock, Choice::Paper, Choice::Paper) }
    else if i == 9 { triple(Choice::Scissors, Choice::Paper, Choice::Paper) }
    else if i == 10 { triple(Choice::Paper, Choice::Rock, Choice::Paper) }
    else if i == 11 { triple(Choice::Paper, Choice::Scissors, Choice::Paper) }
    else if i == 12 { triple(Choice::Paper, Choice::Paper, Choice::Rock) }
    else if i == 13 { triple(Choice::Paper, Choice::Paper, Choice::Scissors) }
    else if i == 14 { triple(Choice::Scissors, Choice::Scissors, Choice::Scissors) }
    else if i == 15 { triple(Choice::Rock, Choice::Scissors, Choice::Scissors) }
    else if i == 16 { triple(Choice::Paper, Choice::Scissors, Choice::Scissors) }
    else if i == 17 { triple(Choice::Scissors, Choice::Rock, Choice::Scissors) }
    else if i == 18 { triple(Choice::Scissors, Choice::Paper, Choice::Scissors) }
    else if i == 19 { triple(Choice::Scissors, Choice::Scissors, Choice::Rock) }
    else if i == 20 { triple(Choice::Scissors, Choice::Scissors, Choice::Paper) }
    else if i == 21 { triple(Choice::Rock, Choice::Paper, Choice::Scissors) }
    else if i == 22 { triple(Choice::Scissors, Choice::Paper, Choice::Rock) }
    else { triple(Choice::Rock, Choice::Rock, Choice::Rock) }
}

/// Every secret token in the catalog is ten ASCII characters long, so its
/// UTF-8 encoding is ten bytes long as well.
pub proof fn lemma_catalog_token_len(i: int)
    requires
        0 <= i < CATALOG_LEN,
    ensures
        catalog_token(i).len() == 10,
        vstd::utf8::encode_utf8(catalog_token(i)).len() == 10,
{
    reveal_strlit("a8241dee1b");
    reveal_strlit("9c3ef738a5");
    reveal_strlit("9c4bea65e9");
    reveal_strlit("038e16cdf9");
    reveal_strlit("481ddbfbe9");
    reveal_strlit("69343e02fa");
    reveal_strlit("1af577cdd3");
    reveal_strlit("f070fae536");
    reveal_strlit("686690db1f");
    reveal_strlit("f611d744c5");
    reveal_strlit("444c34bf26");
    reveal_strlit("5463570d5e");
    reveal_strlit("8aa9d396ea");
    reveal_strlit("76a27a71ee");
    reveal_strlit("41f3de6eed");
    reveal_strlit("d999fb7fe8");
    reveal_strlit("8792ba8121");
    reveal_strlit("68d0ea14ef");
    reveal_strlit("c11af4a478");
    reveal_strlit("823f07b380");
    reveal_strlit("4432146540");
    reveal_strlit("0f1514d671");
    reveal_strlit("62d63583cb");
    assert(vstd::utf8::is_ascii_chars(catalog_token(i)));
    vstd::utf8::is_ascii_chars_encode_utf8(catalog_token(i));
}

/// The closed universe of valid commitments: the fixed, ordered sequence of
/// all catalog rows.
pub fn all_entries() -> (r: Vec<FingerprintEntry>)
    ensures
        r@.len() == CATALOG_LEN,
        forall|i: int| 0 <= i < CATALOG_LEN ==> (#[trigger] r@[i]).token@ == catalog_token(i),
        forall|i: int| 0 <= i < CATALOG_LEN ==> (#[trigger] r@[i]).sequence == catalog_sequence(i),
{
    let mut r: Vec<FingerprintEntry> = Vec::new();
    r.push(FingerprintEntry { token: "a8241dee1b", sequence: BlendSequence { first: Choice::Rock, second: Choice::Rock, third: Choice::Rock } });
    r.push(FingerprintEntry { token: "9c3ef738a5", sequence: BlendSequence { first: Choice::Paper, second: Choice::Rock, third: Choice::Rock } });
    r.push(FingerprintEntry { token: "9c4bea65e9", sequence: BlendSequence { first: Choice::Scissors, second: Choice::Rock, third: Choice::Rock } });
    r.push(FingerprintEntry { token: "038e16cdf9", sequence: BlendSequence { first: Choice::Rock, second: Choice::Paper, third: Choice::Rock } });
    r.push(FingerprintEntry { token: "481ddbfbe9", sequence: BlendSequence { first: Choice::Rock, second: Choice::Scissors, third: Choice::Rock } });
    r.push(FingerprintEntry { token: "69343e02fa", sequence: BlendSequence { first: Choice::Rock, second: Choice::Rock, third: Choice::Paper } });
    r.push(FingerprintEntry { token: "1af577cdd3", sequence: BlendSequence { first: Choice::Rock, second: Choice::Rock, third: Choice::Scissors } });
    r.push(FingerprintEntry { token: "f070fae536", sequence: BlendSequence { first: Choice::Paper, second: Choice::Paper, third: Choice::Paper } });
    r.push(FingerprintEntry { token: "686690db1f", sequence: BlendSequence { first: Choice::Rock, second: Choice::Paper, third: Choice::Paper } });
    r.push(FingerprintEntry { token: "f611d744c5", sequence: BlendSequence { first: Choice::Scissors, second: Choice::Paper, third: Choice::Paper } });
    r.push(FingerprintEntry { token: "444c34bf26", sequence: BlendSequence { first: Choice::Paper, second: Choice::Rock, third: Choice::Paper } });
    r.push(FingerprintEntry { token: "5463570d5e", sequence: BlendSequence { first: Choice::Paper, second: Choice::Scissors, third: Choice::Paper } });
    r.push(FingerprintEntry { token: "8aa9d396ea", sequence: BlendSequence { first: Choice::Paper, second: Choice::Paper, third: Choice::Rock } });
    r.push(FingerprintEntry { token: "76a27a71ee", sequence: BlendSequence { first: Choice::Paper, second: Choice::Paper, third: Choice::Scissors } });
    r.push(FingerprintEntry { token: "41f3de6eed", sequence: BlendSequence { first: Choice::Scissors, second: Choice::Scissors, third: Choice::Scissors } });
    r.push(FingerprintEntry { token: "d999fb7fe8", sequence: BlendSequence { first: Choice::Rock, second: Choice::Scissors, third: Choice::Scissors } });
    r.push(FingerprintEntry { token: "8792ba8121", sequence: BlendSequence { first: Choice::Paper, second: Choice::Scissors, third: Choice::Scissors } });
    r.push(FingerprintEntry { token: "68d0ea14ef", sequence: BlendSequence { first: Choice::Scissors, second: Choice::Rock, third: Choice::Scissors } });
    r.push(FingerprintEntry { token: "c11af4a478", sequence: BlendSequence { first: Choice::Scissors, second: Choice::Paper, third: Choice::Scissors } });
    r.push(FingerprintEntry { token: "823f07b380", sequence: BlendSequence { first: Choice::Scissors, second: Choice::Scissors, third: Choice::Rock } });
    r.push(FingerprintEntry { token: "4432146540", sequence: BlendSequence { first: Choice::Scissors, second: Choice::Scissors, third: Choice::Paper } });
    r.push(FingerprintEntry { token: "0f1514d671", sequence: BlendSequence { first: Choice::Rock, second: Choice::Paper, third: Choice::Scissors } });
    r.push(FingerprintEntry { token: "62d63583cb", sequence: BlendSequence { first: Choice::Scissors, second: Choice::Paper, third: Choice::Rock } });
    r
}

} // verus!
