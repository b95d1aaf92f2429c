//! Global guarantees of the challenge, proved over the same state model that
//! the contracts in [`crate::challenge`] are stated in.

use vstd::prelude::*;

use crate::challenge::ChallengeView;
use crate::challenge::ClaimError;
use crate::challenge::claim_gate;
use crate::challenge::commit_claim;
use crate::challenge::gate_state;
use crate::challenge::inv;
use crate::challenge::release_slot;
use crate::challenge::reserve_slot;
use crate::challenge::slots_in_flight;

verus! {

/// With no claim in flight, the committed winners and the free slots account
/// for every winner slot exactly, and both counters lie within the limit.
pub proof fn lemma_at_rest_accounting(v: ChallengeView)
    requires
        inv(v),
        slots_in_flight(v) == 0,
    ensures
        v.winner_count + v.potential_winners_left == v.winner_limit,
        v.winner_count <= v.winner_limit,
        v.potential_winners_left <= v.winner_limit,
{
}

/// Reserving a slot puts one more claim in flight and keeps the accounting
/// invariant; the winner count and the registry of winners do not move.
pub proof fn lemma_reserve_accounting(v: ChallengeView)
    requires
        inv(v),
        v.potential_winners_left >= 1,
    ensures
        slots_in_flight(reserve_slot(v)) == slots_in_flight(v) + 1,
        inv(reserve_slot(v)),
        reserve_slot(v).winner_count == v.winner_count,
        reserve_slot(v).winners == v.winners,
{
}

/// Either way a claim in flight ends, it settles exactly its own reserved
/// slot and keeps the accounting invariant: a failed claim returns the slot
/// and touches neither the winner count nor the registry; a committed claim
/// consumes the slot for one new winner.
pub proof fn lemma_settle_accounting(v: ChallengeView, winner: Seq<char>)
    requires
        inv(v),
        slots_in_flight(v) >= 1,
    ensures
        slots_in_flight(release_slot(v)) == slots_in_flight(v) - 1,
        inv(release_slot(v)),
        release_slot(v).winner_count == v.winner_count,
        release_slot(v).winners == v.winners,
        slots_in_flight(commit_claim(v, winner)) == slots_in_flight(v) - 1,
        inv(commit_claim(v, winner)),
        commit_claim(v, winner).potential_winners_left == v.potential_winners_left,
        commit_claim(v, winner).winner_count == v.winner_count + 1,
        commit_claim(v, winner).winners.contains_key(winner),
{
}

/// Once an account has won, any further claim it opens is rejected at the
/// precondition gate, whatever the counters and the time say, and the
/// rejection leaves the counters and the registry of winners unchanged.
pub proof fn lemma_winner_claim_rejected(v: ChallengeView, claimant: Seq<char>, now: u64)
    requires
        v.winners.contains_key(claimant),
    ensures
        claim_gate(v, claimant, now) is Some,
        gate_state(v, now).winner_count == v.winner_count,
        gate_state(v, now).potential_winners_left == v.potential_winners_left,
        gate_state(v, now).winners == v.winners,
{
}

/// With a single winner slot and two qualified claimants, whichever claim's
/// gate-and-reserve step runs first holds the only slot: the other claim is
/// turned away at once for want of a slot. Once the first claim commits, the
/// counters stand at one winner and no free slot, and any further claim --
/// the loser's resubmission included -- is refused because no more winners
/// are accepted, not for exhausted slots.
pub proof fn lemma_single_slot_exclusive(
    v: ChallengeView,
    first: Seq<char>,
    second: Seq<char>,
    now: u64,
)
    requires
        inv(v),
        v.winner_limit == 1,
        v.winner_count == 0,
        v.potential_winners_left == 1,
        !v.challenge_completed,
        now <= v.expiration_date_in_ns,
        !v.winners.contains_key(first),
        !v.winners.contains_key(second),
    ensures
        claim_gate(v, first, now) is None,
        claim_gate(reserve_slot(v), second, now) == Some(ClaimError::SlotsExhausted),
        commit_claim(reserve_slot(v), first).winner_count == 1,
        commit_claim(reserve_slot(v), first).potential_winners_left == 0,
        claim_gate(commit_claim(reserve_slot(v), first), second, now) == Some(
            ClaimError::NoMoreWinners,
        ),
{
}

} // verus!
