//! The move lifecycle: a ledger of move records and the operations that
//! govern them.
//!
//! A move is opened by its owner with a fingerprint, may be cancelled by the
//! owner while no adversary is recorded, and is resolved the moment a second
//! identity challenges it. Every operation runs as a unit: it either
//! completes with its single visible state change or fails with an error and
//! leaves the ledger exactly as it was.

use vstd::prelude::*;

use vstd::seq_lib::*;

use crate::fingerprint::MAX_SERIALIZED_BYTES;
use crate::fingerprint::fits_serialization;
use crate::matchup::match_winner;
use crate::matchup::resolve_match;

verus! {

/// Status of a move record. `Unplayed` is the only state that admits further
/// transitions; the other three are terminal.
#[derive(Clone, Copy, PartialEq, Eq, Structural, Debug)]
pub enum Status {
    /// Opened and not yet challenged or cancelled.
    Unplayed,
    /// Challenged and decided: one side won.
    Played,
    /// Challenged and decided: equal round wins.
    Tied,
    /// Withdrawn by its owner before any challenge.
    Cancelled,
}

/// Why an operation on the ledger was refused.
#[derive(Clone, Copy, PartialEq, Eq, Structural, Debug)]
pub enum MoveError {
    /// A move with the same identifier already exists.
    DuplicateKey,
    /// The referenced move does not exist.
    ValueNotFound,
    /// The caller may not perform this operation on this move: a non-owner
    /// tried to cancel, a move was cancelled after its challenge window
    /// closed, or an owner tried to challenge its own move.
    PermissionDenied,
    /// The move is not in a state that admits this operation: a challenge
    /// was made on a move that is no longer unplayed.
    InvalidArgument,
}

/// One match record, from creation through optional challenge and
/// resolution.
#[derive(Debug)]
pub struct Move {
    /// Unique numeric identifier, assigned by the caller at creation.
    pub id: u32,
    /// Identity of the creator. Immutable once set.
    pub owner: String,
    /// The commitment the owner submitted at creation.
    pub owner_fingerprint: String,
    /// The challenging identity, set exactly once, at resolution time.
    pub adversary: Option<String>,
    /// The challenger's commitment, set alongside `adversary`.
    pub adversary_fingerprint: Option<String>,
    /// Where the move stands in its lifecycle.
    pub status: Status,
    /// The winning identity, set exactly when the move was played to a win.
    pub winner: Option<String>,
}

impl Clone for Move {
    /// Cloning a move preserves it exactly.
    fn clone(&self) -> (r: Move)
        ensures
            r == *self,
    {
        Move {
            id: self.id,
            owner: self.owner.clone(),
            owner_fingerprint: self.owner_fingerprint.clone(),
            adversary: match &self.adversary {
                Some(a) => Some(a.clone()),
                None => None,
            },
            adversary_fingerprint: match &self.adversary_fingerprint {
                Some(f) => Some(f.clone()),
                None => None,
            },
            status: self.status,
            winner: match &self.winner {
                Some(w) => Some(w.clone()),
                None => None,
            },
        }
    }
}

/// The record invariants of a single move: adversary and adversary
/// fingerprint are both set or both unset, and exactly when the move has
/// been resolved; the winner is recorded exactly when the move was played to
/// a win; and the owner identity is short enough to serialize.
pub open spec fn move_wf(m: Move) -> bool {
    &&& (m.adversary is Some <==> m.adversary_fingerprint is Some)
    &&& (m.adversary is Some <==> (m.status == Status::Played || m.status == Status::Tied))
    &&& (m.winner is Some <==> m.status == Status::Played)
    &&& fits_serialization(m.owner@)
}

/// The ledger invariants over a sequence of records: identifiers strictly
/// increase, hence are unique, and every record obeys [`move_wf`].
pub open spec fn records_wf(s: Seq<Move>) -> bool {
    &&& forall|i: int, j: int| 0 <= i < j < s.len() ==> s[i].id < s[j].id
    &&& forall|i: int| 0 <= i < s.len() ==> move_wf(#[trigger] s[i])
}

/// A freshly opened move: unplayed, unchallenged, with no winner.
pub open spec fn opened_move(id: u32, owner: String, owner_fingerprint: String) -> Move {
    Move {
        id: id,
        owner: owner,
        owner_fingerprint: owner_fingerprint,
        adversary: None,
        adversary_fingerprint: None,
        status: Status::Unplayed,
        winner: None,
    }
}

/// `m` after a cancellation: the same record, marked cancelled.
pub open spec fn cancelled_move(m: Move) -> Move {
    Move {
        id: m.id,
        owner: m.owner,
        owner_fingerprint: m.owner_fingerprint,
        adversary: m.adversary,
        adversary_fingerprint: m.adversary_fingerprint,
        status: Status::Cancelled,
        winner: m.winner,
    }
}

/// `m` after a successful challenge: the adversary and its fingerprint are
/// recorded, and the outcome decides the terminal status and the winner.
pub open spec fn challenged_move(
    m: Move,
    adversary: String,
    adversary_fingerprint: String,
    winner: Option<String>,
) -> Move {
    Move {
        id: m.id,
        owner: m.owner,
        owner_fingerprint: m.owner_fingerprint,
        adversary: Some(adversary),
        adversary_fingerprint: Some(adversary_fingerprint),
        status: if winner is Some {
            Status::Played
        } else {
            Status::Tied
        },
        winner: winner,
    }
}

/// The records in `s` owned by `identity`, in ledger order.
pub open spec fn owned_moves(s: Seq<Move>, identity: Seq<char>) -> Seq<Move> {
    s.filter(|m: Move| m.owner@ == identity)
}

/// The identifier and owner of each unplayed record in `s`, in ledger order.
pub open spec fn unplayed_summaries(s: Seq<Move>) -> Seq<(u32, Seq<char>)> {
    s.filter(|m: Move| m.status == Status::Unplayed).map_values(|m: Move| (m.id, m.owner@))
}

/// The persistent set of move records, kept in ascending identifier order.
pub struct MoveLedger {
    moves: Vec<Move>,
}

impl View for MoveLedger {
    type V = Seq<Move>;

    closed spec fn view(&self) -> Seq<Move> {
        self.moves@
    }
}

impl MoveLedger {
    /// The ledger invariants: see [`records_wf`].
    pub open spec fn wf(&self) -> bool {
        records_wf(self@)
    }

    /// Whether a move with identifier `id` exists.
    pub open spec fn spec_contains_id(&self, id: u32) -> bool {
        exists|i: int| 0 <= i < self@.len() && self@[i].id == id
    }

    /// The position of the move with identifier `id`, when one exists.
    pub open spec fn index_of_id(&self, id: u32) -> int {
        choose|i: int| 0 <= i < self@.len() && self@[i].id == id
    }

    /// In a well-formed ledger identifiers are unique, so a position holding
    /// `id` is the position of `id`.
    proof fn lemma_found_index(&self, k: int, id: u32)
        requires
            self.wf(),
            0 <= k < self@.len(),
            self@[k].id == id,
        ensures
            self.spec_contains_id(id),
            self.index_of_id(id) == k,
    {
        assert(self.spec_contains_id(id));
        let k2 = self.index_of_id(id);
        if k2 < k {
            assert(self@[k2].id < self@[k].id);
        }
        if k2 > k {
            assert(self@[k].id < self@[k2].id);
        }
    }

    /// An empty ledger: the initial state of the store.
    pub fn new() -> (r: MoveLedger)
        ensures
            r.wf(),
            r@ == Seq::<Move>::empty(),
    {
        MoveLedger { moves: Vec::new() }
    }

    /// The position of the move with identifier `id`, searching in ledger
    /// order.
    fn find_index(&self, id: u32) -> (r: Option<usize>)
        ensures
            match r {
                Some(k) => k < self@.len() && self@[k as int].id == id,
                None => !self.spec_contains_id(id),
            },
    {
        let mut i: usize = 0;
        while i < self.moves.len()
            invariant
                i <= self@.len(),
                forall|j: int| 0 <= j < i ==> self@[j].id != id,
            decreases self@.len() - i,
        {
            if self.moves[i].id == id {
                return Some(i);
            }
            i = i + 1;
        }
        None
    }

    /// Opens a new move: `owner` commits to `owner_fingerprint` under a
    /// caller-chosen identifier. Fails with `DuplicateKey`, changing
    /// nothing, exactly when the identifier is already taken; otherwise the
    /// new record enters the ledger unplayed.
    pub fn new_move(&mut self, id: u32, owner: String, owner_fingerprint: String) -> (r: Result<
        (),
        MoveError,
    >)
        requires
            old(self).wf(),
            fits_serialization(owner@),
        ensures
            final(self).wf(),
            match r {
                Ok(()) => {
                    &&& !old(self).spec_contains_id(id)
                    &&& final(self).spec_contains_id(id)
                    &&& final(self)@[final(self).index_of_id(id)] == (opened_move(
                        id,
                        owner,
                        owner_fingerprint,
                    ))
                    &&& exists|k: int|
                        0 <= k <= old(self)@.len() && final(self)@ == old(self)@.insert(
                            k,
                            (opened_move(id, owner, owner_fingerprint)),
                        )
                },
                Err(e) => {
                    &&& e == MoveError::DuplicateKey
                    &&& old(self).spec_contains_id(id)
                    &&& final(self)@ == old(self)@
                },
            },
    {
        let mut pos: usize = 0;
        while pos < self.moves.len() && self.moves[pos].id < id
            invariant
                pos <= self@.len(),
                self == old(self),
                forall|j: int| 0 <= j < pos ==> self@[j].id < id,
            decreases self@.len() - pos,
        {
            pos = pos + 1;
        }
        if pos < self.moves.len() && self.moves[pos].id == id {
            proof {
                self.lemma_found_index(pos as int, id);
            }
            return Err(MoveError::DuplicateKey);
        }
        proof {
            assert(forall|j: int|
                pos <= j < self@.len() ==> self@[pos as int].id <= #[trigger] self@[j].id);
            assert(forall|j: int| 0 <= j < self@.len() ==> #[trigger] self@[j].id != id);
        }
        let m = Move {
            id: id,
            owner: owner,
            owner_fingerprint: owner_fingerprint,
            adversary: None,
            adversary_fingerprint: None,
            status: Status::Unplayed,
            winner: None,
        };
        self.moves.insert(pos, m);
        proof {
            old(self)@.insert_ensures(pos as int, m);
            assert(self.wf());
            self.lemma_found_index(pos as int, id);
        }
        Ok(())
    }

    /// Cancels a move. Only the owner may cancel, and only while no
    /// adversary has been recorded: the cancellation window closes the
    /// instant a challenge is accepted. On success the record is retained,
    /// marked cancelled; on failure the ledger is unchanged.
    pub fn cancel_move(&mut self, id: u32, caller: &str) -> (r: Result<(), MoveError>)
        requires
            old(self).wf(),
        ensures
            final(self).wf(),
            match r {
                Ok(()) => {
                    &&& old(self).spec_contains_id(id)
                    &&& old(self)@[old(self).index_of_id(id)].owner@ == caller@
                    &&& old(self)@[old(self).index_of_id(id)].adversary is None
                    &&& final(self)@ == old(self)@.update(
                        old(self).index_of_id(id),
                        (cancelled_move(old(self)@[old(self).index_of_id(id)])),
                    )
                },
                Err(MoveError::ValueNotFound) => {
                    &&& !old(self).spec_contains_id(id)
                    &&& final(self)@ == old(self)@
                },
                Err(MoveError::PermissionDenied) => {
                    &&& old(self).spec_contains_id(id)
                    &&& (old(self)@[old(self).index_of_id(id)].owner@ != caller@ || old(
                        self,
                    )@[old(self).index_of_id(id)].adversary is Some)
                    &&& final(self)@ == old(self)@
                },
                Err(_) => false,
            },
    {
        let k = match self.find_index(id) {
            None => {
                return Err(MoveError::ValueNotFound);
            },
            Some(k) => k,
        };
        proof {
            self.lemma_found_index(k as int, id);
        }
        let caller_owned: String = caller.to_owned();
        if !(self.moves[k].owner == caller_owned) {
            return Err(MoveError::PermissionDenied);
        }
        if self.moves[k].adversary.is_some() {
            return Err(MoveError::PermissionDenied);
        }
        let mut m = self.moves.remove(k);
        m.status = Status::Cancelled;
        self.moves.insert(k, m);
        proof {
            broadcast use lemma_update_is_remove_insert;

            assert(self@ =~= old(self)@.update(k as int, cancelled_move(old(self)@[k as int])));
        }
        Ok(())
    }

    /// Challenges a move: `adversary` submits its fingerprint against the
    /// move's owner, which resolves the match at once. Fails with
    /// `ValueNotFound` when the move does not exist, `PermissionDenied` when
    /// the adversary is the owner (self-play is forbidden), and
    /// `InvalidArgument` when the move is no longer unplayed; every failure
    /// leaves the ledger unchanged. On success the adversary, its
    /// fingerprint, the terminal status and the winner are recorded as one
    /// visible state change, and the winning identity (`None` for a tie) is
    /// returned.
    pub fn play_move(&mut self, id: u32, adversary: String, adversary_fingerprint: String) -> (r:
        Result<Option<String>, MoveError>)
        requires
            old(self).wf(),
            fits_serialization(adversary@),
        ensures
            final(self).wf(),
            match r {
                Ok(winner) => {
                    let m = old(self)@[old(self).index_of_id(id)];
                    &&& old(self).spec_contains_id(id)
                    &&& m.owner@ != adversary@
                    &&& m.status == Status::Unplayed
                    &&& winner.deep_view() == match_winner(
                        m.owner@,
                        m.owner_fingerprint@,
                        adversary@,
                        adversary_fingerprint@,
                    )
                    &&& final(self)@ == old(self)@.update(
                        old(self).index_of_id(id),
                        (challenged_move(m, adversary, adversary_fingerprint, winner)),
                    )
                },
                Err(MoveError::ValueNotFound) => {
                    &&& !old(self).spec_contains_id(id)
                    &&& final(self)@ == old(self)@
                },
                Err(MoveError::PermissionDenied) => {
                    &&& old(self).spec_contains_id(id)
                    &&& old(self)@[old(self).index_of_id(id)].owner@ == adversary@
                    &&& final(self)@ == old(self)@
                },
                Err(MoveError::InvalidArgument) => {
                    &&& old(self).spec_contains_id(id)
                    &&& old(self)@[old(self).index_of_id(id)].owner@ != adversary@
                    &&& old(self)@[old(self).index_of_id(id)].status != Status::Unplayed
                    &&& final(self)@ == old(self)@
                },
                Err(MoveError::DuplicateKey) => false,
            },
    {
        let k = match self.find_index(id) {
            None => {
                return Err(MoveError::ValueNotFound);
            },
            Some(k) => k,
        };
        proof {
            self.lemma_found_index(k as int, id);
        }
        if self.moves[k].owner == adversary {
            return Err(MoveError::PermissionDenied);
        }
        if !(self.moves[k].status == Status::Unplayed) {
            return Err(MoveError::InvalidArgument);
        }
        let outcome = resolve_match(
            self.moves[k].owner.as_str(),
            self.moves[k].owner_fingerprint.as_str(),
            adversary.as_str(),
            adversary_fingerprint.as_str(),
        );
        let stored_winner = match &outcome {
            Some(w) => Some(w.clone()),
            None => None,
        };
        let mut m = self.moves.remove(k);
        m.adversary = Some(adversary);
        m.adversary_fingerprint = Some(adversary_fingerprint);
        m.status = if stored_winner.is_some() {
            Status::Played
        } else {
            Status::Tied
        };
        m.winner = stored_winner;
        self.moves.insert(k, m);
        proof {
            broadcast use lemma_update_is_remove_insert;

            assert(self@ =~= old(self)@.update(
                k as int,
                challenged_move(
                    old(self)@[k as int],
                    adversary,
                    adversary_fingerprint,
                    outcome,
                ),
            ));
        }
        Ok(outcome)
    }

    /// The moves owned by `identity`, in ledger order.
    pub fn moves_of(&self, identity: &str) -> (r: Vec<Move>)
        ensures
            r@ == owned_moves(self@, identity@),
    {
        let identity_owned: String = identity.to_owned();
        let mut out: Vec<Move> = Vec::new();
        let mut i: usize = 0;
        while i < self.moves.len()
            invariant
                i <= self@.len(),
                identity_owned@ == identity@,
                out@ == owned_moves(self@.subrange(0, i as int), identity@),
            decreases self@.len() - i,
        {
            proof {
                broadcast use Seq::lemma_filter_push;

                assert(self@.subrange(0, i as int + 1) =~= self@.subrange(0, i as int).push(
                    self@[i as int],
                ));
            }
            if self.moves[i].owner == identity_owned {
                out.push(self.moves[i].clone());
            }
            i = i + 1;
        }
        proof {
            assert(self@.subrange(0, self@.len() as int) =~= self@);
        }
        out
    }

    /// The identifier and owner of every unplayed move, in ledger order.
    pub fn get_unplayed_moves(&self) -> (r: Vec<(u32, String)>)
        ensures
            r@.len() == unplayed_summaries(self@).len(),
            forall|k: int| 0 <= k < r@.len() ==> ((#[trigger] r@[k]).0, r@[k].1@)
                == unplayed_summaries(self@)[k],
    {
        let mut out: Vec<(u32, String)> = Vec::new();
        let mut i: usize = 0;
        while i < self.moves.len()
            invariant
                i <= self@.len(),
                out@.len() == unplayed_summaries(self@.subrange(0, i as int)).len(),
                forall|k: int| 0 <= k < out@.len() ==> ((#[trigger] out@[k]).0, out@[k].1@)
                    == unplayed_summaries(self@.subrange(0, i as int))[k],
            decreases self@.len() - i,
        {
            proof {
                broadcast use Seq::lemma_filter_push;

                assert(self@.subrange(0, i as int + 1) =~= self@.subrange(0, i as int).push(
                    self@[i as int],
                ));
            }
            if self.moves[i].status == Status::Unplayed {
                out.push((self.moves[i].id, self.moves[i].owner.clone()));
            }
            i = i + 1;
        }
        proof {
            assert(self@.subrange(0, self@.len() as int) =~= self@);
        }
        out
    }

    /// The move with identifier `id`, when one exists.
    pub fn get_move(&self, id: u32) -> (r: Option<&Move>)
        requires
            self.wf(),
        ensures
            match r {
                Some(m) => self.spec_contains_id(id) && *m == self@[self.index_of_id(id)],
                None => !self.spec_contains_id(id),
            },
    {
        match self.find_index(id) {
            None => None,
            Some(k) => {
                proof {
                    self.lemma_found_index(k as int, id);
                }
                Some(&self.moves[k])
            },
        }
    }

    /// All records, in ledger order: what a host environment persists.
    pub fn records(&self) -> (r: &Vec<Move>)
        ensures
            r@ == self@,
    {
        &self.moves
    }

    /// Rebuilds a ledger from stored records, accepting them exactly when
    /// they satisfy the ledger invariants.
    pub fn restore(moves: Vec<Move>) -> (r: Option<MoveLedger>)
        ensures
            match r {
                Some(l) => l.wf() && l@ == moves@,
                None => !records_wf(moves@),
            },
    {
        let mut i: usize = 0;
        while i < moves.len()
            invariant
                i <= moves@.len(),
                forall|j: int| 0 <= j < i ==> move_wf(#[trigger] moves@[j]),
                forall|l: int, j: int| 0 <= l < j < i ==> moves@[l].id < moves@[j].id,
            decreases moves@.len() - i,
        {
            let m = &moves[i];
            let adversary_consistent = m.adversary.is_some() == m.adversary_fingerprint.is_some();
            let challenged = m.status == Status::Played || m.status == Status::Tied;
            let winner_consistent = m.winner.is_some() == (m.status == Status::Played);
            let owner_fits = m.owner.as_str().len() <= MAX_SERIALIZED_BYTES;
            if !(adversary_consistent && (m.adversary.is_some() == challenged)
                && winner_consistent && owner_fits) {
                proof {
                    assert(!move_wf(moves@[i as int]));
                }
                return None;
            }
            if i > 0 && !(moves[i - 1].id < moves[i].id) {
                return None;
            }
            proof {
                assert forall|l: int| 0 <= l < i implies moves@[l].id < moves@[i as int].id by {
                    if l < i as int - 1 {
                        assert(moves@[l].id < moves@[i as int - 1].id);
                    }
                }
            }
            i = i + 1;
        }
        Some(MoveLedger { moves })
    }
}

} // verus!
