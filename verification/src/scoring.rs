//! Choices, blend sequences, and the three-round scorer.

use vstd::prelude::*;

verus! {

/// One round-choice of the blend game.
#[derive(Clone, Copy, PartialEq, Eq, Structural, Debug)]
pub enum Choice {
    Rock,
    Paper,
    Scissors,
}

impl Choice {
    /// The sentinel magnitude that stands for this choice in stored records.
    /// The three magnitudes are opaque distinct tags; their numeric order
    /// carries no game meaning.
    pub open spec fn spec_magnitude(self) -> u64 {
        match self {
            Choice::Rock => 147,
            Choice::Paper => 258,
            Choice::Scissors => 369,
        }
    }

    /// Executable counterpart of [`Choice::spec_magnitude`].
    #[verifier::when_used_as_spec(spec_magnitude)]
    pub fn magnitude(self) -> (m: u64)
        ensures
            m == self.spec_magnitude(),
    {
        match self {
            Choice::Rock => 147,
            Choice::Paper => 258,
            Choice::Scissors => 369,
        }
    }
}

/// Whether choice `a` defeats choice `b` under rock-paper-scissors
/// precedence: Rock beats Scissors, Scissors beats Paper, Paper beats Rock.
pub open spec fn beats(a: Choice, b: Choice) -> bool {
    ||| (a == Choice::Rock && b == Choice::Scissors)
    ||| (a == Choice::Scissors && b == Choice::Paper)
    ||| (a == Choice::Paper && b == Choice::Rock)
}

/// Executable counterpart of [`beats`].
#[verifier::when_used_as_spec(beats)]
pub fn beats_round(a: Choice, b: Choice) -> (r: bool)
    ensures
        r == beats(a, b),
{
    match (a, b) {
        (Choice::Rock, Choice::Scissors) => true,
        (Choice::Scissors, Choice::Paper) => true,
        (Choice::Paper, Choice::Rock) => true,
        _ => false,
    }
}

/// An ordered triple of choices: one identity's commitments for the three
/// simultaneous rounds of a match.
#[derive(Clone, Copy, PartialEq, Eq, Structural, Debug)]
pub struct BlendSequence {
    pub first: Choice,
    pub second: Choice,
    pub third: Choice,
}

/// How many of the three rounds side `a` wins against side `b`.
pub open spec fn wins_of(a: BlendSequence, b: BlendSequence) -> int {
    (if beats(a.first, b.first) { 1int } else { 0int })
        + (if beats(a.second, b.second) { 1int } else { 0int })
        + (if beats(a.third, b.third) { 1int } else { 0int })
}

/// The pair of per-side round-win counts for a match of `a` against `b`.
pub open spec fn score_of(a: BlendSequence, b: BlendSequence) -> (int, int) {
    (wins_of(a, b), wins_of(b, a))
}

/// Compares the two sequences position by position under rock-paper-scissors
/// precedence and tallies round wins per side. Equal choices score nothing
/// for either side. No aggregation or tie-break is performed here.
pub fn score(a: BlendSequence, b: BlendSequence) -> (r: (u32, u32))
    ensures
        r.0 == score_of(a, b).0,
        r.1 == score_of(a, b).1,
{
    let mut wins_a: u32 = 0;
    let mut wins_b: u32 = 0;
    if beats_round(a.first, b.first) {
        wins_a = wins_a + 1;
    } else if beats_round(b.first, a.first) {
        wins_b = wins_b + 1;
    }
    if beats_round(a.second, b.second) {
        wins_a = wins_a + 1;
    } else if beats_round(b.second, a.second) {
        wins_b = wins_b + 1;
    }
    if beats_round(a.third, b.third) {
        wins_a = wins_a + 1;
    } else if beats_round(b.third, a.third) {
        wins_b = wins_b + 1;
    }
    (wins_a, wins_b)
}

/// Law: scoring is symmetric under swapping the two sides. If scoring `a`
/// against `b` yields the pair `(x, y)`, then scoring `b` against `a`
/// yields `(y, x)`.
pub proof fn lemma_score_symmetric(a: BlendSequence, b: BlendSequence)
    ensures
        score_of(a, b).0 == score_of(b, a).1,
        score_of(a, b).1 == score_of(b, a).0,
{
}

} // verus!
