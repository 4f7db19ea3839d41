//! The match resolver: from two submitted fingerprints to a match outcome.

use vstd::prelude::*;

use crate::fingerprint::fits_serialization;
use crate::fingerprint::resolve;
use crate::fingerprint::resolve_of;
use crate::scoring::BlendSequence;
use crate::scoring::score;
use crate::scoring::wins_of;

verus! {

/// The round wins one side earns against the other, after the reverse
/// lookup. An unrecognized fingerprint degrades to a neutral sequence that
/// matches no choice, so a round against it is won by neither side.
pub open spec fn side_wins(mine: Option<BlendSequence>, theirs: Option<BlendSequence>) -> int {
    match (mine, theirs) {
        (Some(a), Some(b)) => wins_of(a, b),
        _ => 0,
    }
}

/// The outcome of resolving a match: the winning identity, or `None` for a
/// tie. The owner wins when it takes strictly more rounds than the
/// adversary; equal round counts tie.
pub open spec fn match_winner(
    owner: Seq<char>,
    owner_fp: Seq<char>,
    adversary: Seq<char>,
    adversary_fp: Seq<char>,
) -> Option<Seq<char>> {
    let owner_seq = resolve_of(owner, owner_fp);
    let adversary_seq = resolve_of(adversary, adversary_fp);
    let owner_wins = side_wins(owner_seq, adversary_seq);
    let adversary_wins = side_wins(adversary_seq, owner_seq);
    if owner_wins == adversary_wins {
        None
    } else if owner_wins > adversary_wins {
        Some(owner)
    } else {
        Some(adversary)
    }
}

/// Resolves both fingerprints through the catalog, scores the two recovered
/// sequences round by round, and decides the match: equal round wins is a
/// tie (`None`); otherwise the side with more round wins takes the match and
/// its identity is returned. An unrecognized fingerprint degrades to a
/// neutral sequence that wins no round for either side, rather than aborting
/// the operation.
pub fn resolve_match(owner: &str, owner_fp: &str, adversary: &str, adversary_fp: &str) -> (r:
    Option<String>)
    requires
        fits_serialization(owner@),
        fits_serialization(adversary@),
    ensures
        r.deep_view() == match_winner(owner@, owner_fp@, adversary@, adversary_fp@),
{
    let owner_seq = resolve(owner, owner_fp);
    let adversary_seq = resolve(adversary, adversary_fp);
    let (owner_wins, adversary_wins): (u32, u32) = match (owner_seq, adversary_seq) {
        (Some(a), Some(b)) => score(a, b),
        _ => (0, 0),
    };
    if owner_wins == adversary_wins {
        None
    } else if owner_wins > adversary_wins {
        Some(owner.to_owned())
    } else {
        Some(adversary.to_owned())
    }
}

/// Law: match resolution is anti-symmetric in the two roles. Swapping owner
/// and adversary, each side keeping its own identity and fingerprint,
/// preserves a tie and preserves the winning identity of a decided match:
/// the winner merely changes roles.
pub proof fn lemma_match_winner_antisymmetric(
    owner: Seq<char>,
    owner_fp: Seq<char>,
    adversary: Seq<char>,
    adversary_fp: Seq<char>,
)
    ensures
        match_winner(owner, owner_fp, adversary, adversary_fp) == match_winner(
            adversary,
            adversary_fp,
            owner,
            owner_fp,
        ),
{
}

} // verus!
