//! The challenge contract: configuration, the scarce-slot counters, the
//! winner registry, and the claim saga's decision points.
//!
//! A claim runs in rounds. The host issues the external registry calls of one
//! round, gathers every response, and hands the round's plain results to the
//! decision function of the next stage. Each decision either turns the claim
//! away (returning any reserved slot), advances it by telling the host which
//! calls to issue next, or commits it.

use vstd::prelude::*;

use crate::external::NFTTokenMetadata;
use crate::external::NFTTokenMetadataView;
use crate::external::TokenCompliant;
use crate::external::is_valid_account_id;
use crate::external::valid_account_name;

verus! {

/// Why a claim is turned away before a slot is reserved. Each variant is a
/// distinct, user-visible reason.
#[derive(Clone, Copy, Debug, PartialEq, Eq, Structural)]
pub enum ClaimError {
    /// The challenge is not accepting any more winners.
    NoMoreWinners,
    /// Every remaining slot is reserved by a claim in flight.
    SlotsExhausted,
    /// The challenge is over.
    ChallengeOver,
    /// The challenge has passed its expiration date.
    ChallengeExpired,
    /// The claimant has already won this challenge.
    AlreadyWon,
}

/// Why a challenge cannot be created from the given configuration.
#[derive(Clone, Copy, Debug, PartialEq, Eq, Structural)]
pub enum InitError {
    /// The owner's account name is not well-formed.
    InvalidOwnerId,
    /// The challenge item list and the burn flag list differ in length.
    LengthMismatch,
    /// A challenge needs at least one challenge item.
    NoChallengeItems,
    /// A challenge needs room for at least one winner.
    WinnerLimitZero,
    /// Challenge item ids must be pairwise distinct.
    DuplicateChallengeIds,
}

/// Why minting the reward is refused, or that the registry's mint call failed.
#[derive(Clone, Copy, Debug, PartialEq, Eq, Structural)]
pub enum MintError {
    /// Only a winner of the challenge may mint the reward.
    NotWinner,
    /// The attached deposit does not cover the minting fee.
    InsufficientDeposit,
    /// The registry reported a failure for the mint call.
    MintFailed,
}

/// Why the completion toggle is refused.
#[derive(Clone, Copy, Debug, PartialEq, Eq, Structural)]
pub enum AdminError {
    /// Only the challenge owner may toggle completion.
    NotChallengeOwner,
    /// The configuration does not allow updating the completion status.
    CreatorCannotUpdate,
}

/// What the ownership round decided.
#[derive(Debug)]
pub enum ClaimOutcome {
    /// The claimant does not own a token of the challenge item at
    /// `failed_index`; the reserved slot has been returned.
    NotOwned { failed_index: usize },
    /// No challenge item is flagged burn-on-claim, so the claim is committed:
    /// the claimant is now a winner.
    Won,
    /// Some item is flagged burn-on-claim: the host must now fetch, for each
    /// index, a transfer approval for the captured token of that index.
    NeedApprovals { token_ids: Vec<String> },
}

/// What the approval round decided.
#[derive(Debug)]
pub enum ApprovalOutcome {
    /// No transfer approval for the token at `failed_index`; the reserved
    /// slot has been returned.
    NotApproved { failed_index: usize },
    /// Every approval is in hand: the host must issue, for each index, a
    /// transfer of `(registry id, token id, approval id)` to the challenge.
    Transfers { transfers: Vec<(String, String, u64)> },
}

/// A read-only copy of the challenge's configuration and counters.
#[derive(Debug)]
pub struct ChallengeMetaData {
    /// The owner of this challenge.
    pub owner_id: String,
    /// The name of this challenge.
    pub name: String,
    /// Free-form description of this challenge.
    pub description: String,
    /// URL to associated media.
    pub media_link: Option<String>,
    /// The id of the reward item's registry.
    pub reward_nft_id: String,
    /// Metadata for the reward token, used if the challenge mints it.
    pub reward_nft_metadata: NFTTokenMetadata,
    /// Ids of the registries of the challenge items.
    pub challenge_nft_ids: Vec<String>,
    /// Whether to burn the challenge item at the matching index on claim.
    pub burn_challenge_piece_on_claim: Vec<bool>,
    /// The expiration date of this challenge, as a nanosecond timestamp.
    pub expiration_date_in_ns: u64,
    /// Maximum number of winners for this challenge.
    pub winner_limit: u64,
    /// Current number of winners for this challenge.
    pub winners_count: u64,
    /// Whether the challenge is completed.
    pub challenge_completed: bool,
    /// Whether the creator may update the completion status.
    pub creator_can_update: bool,
}

/// The mathematical value of a [`Contract`].
#[verifier::ext_equal]
pub struct ChallengeView {
    pub owner_id: Seq<char>,
    pub creator_id: Seq<char>,
    pub name: Seq<char>,
    pub description: Seq<char>,
    pub media_link: Seq<char>,
    pub reward_nft_id: Seq<char>,
    pub reward_nft_metadata: NFTTokenMetadataView,
    /// The registry id of each challenge item, in configuration order.
    pub challenge_nft_ids: Seq<Seq<char>>,
    /// Whether the item at the matching index is burned on claim.
    pub burn_on_claim: Seq<bool>,
    pub expiration_date_in_ns: u64,
    pub winner_limit: u64,
    pub winner_count: u64,
    /// The winner registry: each winner's account name and win counter.
    pub winners: Map<Seq<char>, u64>,
    pub potential_winners_left: u64,
    pub challenge_completed: bool,
    pub creator_can_update: bool,
}

/// The winner registry of `entries`, read as a map from account name to win
/// counter: a later entry for the same account overrides an earlier one.
pub open spec fn winners_map(entries: Seq<(String, u64)>) -> Map<Seq<char>, u64>
    decreases entries.len(),
{
    if entries.len() == 0 {
        Map::empty()
    } else {
        winners_map(entries.drop_last()).insert(entries.last().0@, entries.last().1)
    }
}

/// Every configured challenge item id differs from every other.
pub open spec fn pairwise_distinct(ids: Seq<Seq<char>>) -> bool {
    forall|i: int, j: int| 0 <= i < j < ids.len() ==> ids[i] != ids[j]
}

/// What holds of every challenge between operations: the two per-item lists
/// run in parallel and are non-empty, item ids are pairwise distinct, there
/// is room for at least one winner, and the committed winners together with
/// the free slots never exceed the winner limit. The limit less the two
/// counters is the number of slots reserved by claims in flight.
pub open spec fn inv(v: ChallengeView) -> bool {
    &&& v.challenge_nft_ids.len() == v.burn_on_claim.len()
    &&& v.challenge_nft_ids.len() >= 1
    &&& pairwise_distinct(v.challenge_nft_ids)
    &&& v.winner_limit >= 1
    &&& v.winner_count + v.potential_winners_left <= v.winner_limit
}

/// The number of slots currently reserved by claims in flight.
pub open spec fn slots_in_flight(v: ChallengeView) -> int {
    v.winner_limit - v.winner_count - v.potential_winners_left
}

/// The precondition gate of a claim: the first reason, if any, to turn the
/// claim away before reserving a slot. A full winner roster is reported
/// before exhausted slots, so a claimant who lost the race for the last slot
/// is told that no more winners are accepted once that slot's claim commits.
pub open spec fn claim_gate(v: ChallengeView, claimant: Seq<char>, now: u64) -> Option<
    ClaimError,
> {
    if v.winner_count >= v.winner_limit {
        Some(ClaimError::NoMoreWinners)
    } else if v.potential_winners_left == 0 {
        Some(ClaimError::SlotsExhausted)
    } else if v.challenge_completed {
        Some(ClaimError::ChallengeOver)
    } else if now > v.expiration_date_in_ns {
        Some(ClaimError::ChallengeExpired)
    } else if v.winners.contains_key(claimant) {
        Some(ClaimError::AlreadyWon)
    } else {
        None
    }
}

/// The state after the precondition gate alone: checking expiry marks an
/// expired challenge completed, as a side effect of the check; nothing else
/// changes, whichever reason fires.
pub open spec fn gate_state(v: ChallengeView, now: u64) -> ChallengeView {
    if v.winner_count >= v.winner_limit || v.potential_winners_left == 0
        || v.challenge_completed {
        v
    } else if now > v.expiration_date_in_ns {
        ChallengeView { challenge_completed: true, ..v }
    } else {
        v
    }
}

/// Reserving a slot: one fewer potential winner.
pub open spec fn reserve_slot(v: ChallengeView) -> ChallengeView {
    ChallengeView { potential_winners_left: (v.potential_winners_left - 1) as u64, ..v }
}

/// Returning a reserved slot: one more potential winner.
pub open spec fn release_slot(v: ChallengeView) -> ChallengeView {
    ChallengeView { potential_winners_left: (v.potential_winners_left + 1) as u64, ..v }
}

/// Committing a claim: the claimant enters the winner registry and the winner
/// count grows by one; the reserved slot is consumed, not returned.
pub open spec fn commit_claim(v: ChallengeView, winner: Seq<char>) -> ChallengeView {
    ChallengeView {
        winner_count: (v.winner_count + 1) as u64,
        winners: v.winners.insert(winner, 1),
        ..v
    }
}

/// The state after the expiry check alone: completed once the given time has
/// passed the expiration date, and thereafter for good.
pub open spec fn expire_state(v: ChallengeView, now: u64) -> ChallengeView {
    ChallengeView {
        challenge_completed: v.challenge_completed || now > v.expiration_date_in_ns,
        ..v
    }
}

/// Whether the ownership round's response at index `i` proves ownership: the
/// registry answered, and with at least one token. A failed call and an empty
/// token list alike count as "not owned".
pub open spec fn owned_at(results: Seq<Option<Seq<Seq<char>>>>, i: int) -> bool {
    results[i] is Some && results[i].unwrap().len() > 0
}

/// The id of the first token the registry at index `i` reported.
pub open spec fn first_token_at(results: Seq<Option<Seq<Seq<char>>>>, i: int) -> Seq<char> {
    results[i].unwrap()[0]
}

/// Whether every ownership response proves ownership.
pub open spec fn all_owned(results: Seq<Option<Seq<Seq<char>>>>) -> bool {
    forall|i: int| 0 <= i < results.len() ==> owned_at(results, i)
}

/// Whether any challenge item is flagged burn-on-claim.
pub open spec fn any_burn(burn: Seq<bool>) -> bool {
    exists|i: int| 0 <= i < burn.len() && burn[i]
}

/// Whether every approval response carries an approval id.
pub open spec fn all_approved(approvals: Seq<Option<u64>>) -> bool {
    forall|i: int| 0 <= i < approvals.len() ==> approvals[i] is Some
}

/// Whether `pairs` lines the registry ids up with the captured tokens: one
/// pair per challenge item, each holding that index's registry id and token.
pub open spec fn item_token_pairing(
    pairs: Seq<(String, String)>,
    ids: Seq<Seq<char>>,
    tokens: Seq<Seq<char>>,
) -> bool {
    &&& pairs.len() == ids.len()
    &&& forall|i: int|
        0 <= i < pairs.len() ==> (#[trigger] pairs[i]).0@ == ids[i] && pairs[i].1@ == tokens[i]
}

/// The least fee, in millis of the native token, that must accompany a mint.
pub const MINTING_FEE_MILLITOKEN: u128 = 54;

/// An NFT challenge: a scarce reward awarded to accounts that prove, through
/// external registries, that they own every configured challenge item.
pub struct Contract {
    owner_id: String,
    creator_id: String,
    name: String,
    description: String,
    media_link: String,
    reward_nft_id: String,
    reward_nft_metadata: NFTTokenMetadata,
    challenge_nft_ids: Vec<String>,
    burn_challenge_piece_on_claim: Vec<bool>,
    expiration_date_in_ns: u64,
    winner_limit: u64,
    winner_count: u64,
    winners: Vec<(String, u64)>,
    potential_winners_left: u64,
    challenge_completed: bool,
    creator_can_update: bool,
}

impl View for Contract {
    type V = ChallengeView;

    closed spec fn view(&self) -> ChallengeView {
        ChallengeView {
            owner_id: self.owner_id@,
            creator_id: self.creator_id@,
            name: self.name@,
            description: self.description@,
            media_link: self.media_link@,
            reward_nft_id: self.reward_nft_id@,
            reward_nft_metadata: self.reward_nft_metadata@,
            challenge_nft_ids: self.challenge_nft_ids.deep_view(),
            burn_on_claim: self.burn_challenge_piece_on_claim@,
            expiration_date_in_ns: self.expiration_date_in_ns,
            winner_limit: self.winner_limit,
            winner_count: self.winner_count,
            winners: winners_map(self.winners@),
            potential_winners_left: self.potential_winners_left,
            challenge_completed: self.challenge_completed,
            creator_can_update: self.creator_can_update,
        }
    }
}

impl Contract {
    #[verifier::type_invariant]
    spec fn wf(self) -> bool {
        inv(self@)
    }

    /// Creates a challenge from its configuration, rejecting an ill-formed
    /// one. A fresh challenge has no winners, all slots free, and is not
    /// completed.
    pub fn new(
        owner_id: String,
        creator_id: String,
        name: String,
        description: String,
        media_link: String,
        reward_nft_id: String,
        challenge_nft_ids: Vec<String>,
        burn_challenge_piece_on_claim: Vec<bool>,
        expiration_date_in_ns: u64,
        winner_limit: u64,
        creator_can_update: bool,
        reward_nft_metadata: NFTTokenMetadata,
    ) -> (r: Result<Contract, InitError>)
        ensures
            r == Err::<Contract, InitError>(InitError::InvalidOwnerId) <==> !valid_account_name(
                owner_id@,
            ),
            valid_account_name(owner_id@) ==> (r == Err::<Contract, InitError>(
                InitError::LengthMismatch,
            ) <==> challenge_nft_ids.len() != burn_challenge_piece_on_claim.len()),
            valid_account_name(owner_id@) && challenge_nft_ids.len()
                == burn_challenge_piece_on_claim.len() ==> (r == Err::<Contract, InitError>(
                InitError::NoChallengeItems,
            ) <==> challenge_nft_ids.len() == 0),
            valid_account_name(owner_id@) && challenge_nft_ids.len()
                == burn_challenge_piece_on_claim.len() && challenge_nft_ids.len() != 0 ==> (r
                == Err::<Contract, InitError>(InitError::WinnerLimitZero) <==> winner_limit == 0),
            valid_account_name(owner_id@) && challenge_nft_ids.len()
                == burn_challenge_piece_on_claim.len() && challenge_nft_ids.len() != 0
                && winner_limit != 0 ==> (r == Err::<Contract, InitError>(
                InitError::DuplicateChallengeIds,
            ) <==> !pairwise_distinct(challenge_nft_ids.deep_view())),
            r matches Ok(c) ==> c@ == (ChallengeView {
                owner_id: owner_id@,
                creator_id: creator_id@,
                name: name@,
                description: description@,
                media_link: media_link@,
                reward_nft_id: reward_nft_id@,
                reward_nft_metadata: reward_nft_metadata@,
                challenge_nft_ids: challenge_nft_ids.deep_view(),
                burn_on_claim: burn_challenge_piece_on_claim@,
                expiration_date_in_ns: expiration_date_in_ns,
                winner_limit: winner_limit,
                winner_count: 0u64,
                winners: Map::<Seq<char>, u64>::empty(),
                potential_winners_left: winner_limit,
                challenge_completed: false,
                creator_can_update: creator_can_update,
            }),
            r is Ok <==> valid_account_name(owner_id@) && challenge_nft_ids.len()
                == burn_challenge_piece_on_claim.len() && challenge_nft_ids.len() != 0
                && winner_limit != 0 && pairwise_distinct(challenge_nft_ids.deep_view()),
    {
        if !is_valid_account_id(owner_id.as_str()) {
            return Err(InitError::InvalidOwnerId);
        }
        if challenge_nft_ids.len() != burn_challenge_piece_on_claim.len() {
            return Err(InitError::LengthMismatch);
        }
        if challenge_nft_ids.len() == 0 {
            return Err(InitError::NoChallengeItems);
        }
        if winner_limit == 0 {
            return Err(InitError::WinnerLimitZero);
        }
        if has_duplicate(&challenge_nft_ids) {
            return Err(InitError::DuplicateChallengeIds);
        }
        Ok(
            Contract {
                owner_id,
                creator_id,
                name,
                description,
                media_link,
                reward_nft_id,
                reward_nft_metadata,
                challenge_nft_ids,
                burn_challenge_piece_on_claim,
                expiration_date_in_ns,
                winner_limit,
                winner_count: 0,
                winners: Vec::new(),
                potential_winners_left: winner_limit,
                challenge_completed: false,
                creator_can_update,
            },
        )
    }

    /// A read-only copy of the configuration and the current counters.
    pub fn get_challenge_metadata(&self) -> (md: ChallengeMetaData)
        ensures
            md.owner_id@ == self@.owner_id,
            md.name@ == self@.name,
            md.description@ == self@.description,
            md.media_link matches Some(link) && link@ == self@.media_link,
            md.reward_nft_id@ == self@.reward_nft_id,
            md.reward_nft_metadata@ == self@.reward_nft_metadata,
            md.challenge_nft_ids.deep_view() == self@.challenge_nft_ids,
            md.burn_challenge_piece_on_claim@ == self@.burn_on_claim,
            md.expiration_date_in_ns == self@.expiration_date_in_ns,
            md.winner_limit == self@.winner_limit,
            md.winners_count == self@.winner_count,
            md.challenge_completed == self@.challenge_completed,
            md.creator_can_update == self@.creator_can_update,
    {
        proof {
            use_type_invariant(self);
        }
        let n = self.challenge_nft_ids.len();
        let mut challenge_list: Vec<String> = Vec::new();
        let mut challenge_burn_list: Vec<bool> = Vec::new();
        let mut i: usize = 0;
        while i < n
            invariant
                i <= n,
                n == self.challenge_nft_ids.len(),
                n == self.burn_challenge_piece_on_claim.len(),
                challenge_list.deep_view() == self.challenge_nft_ids.deep_view().take(i as int),
                challenge_burn_list@ == self.burn_challenge_piece_on_claim@.take(i as int),
            decreases n - i,
        {
            let ghost prefix = challenge_list.deep_view();
            let entry = self.challenge_nft_ids[i].clone();
            proof {
                assert(entry@ == self.challenge_nft_ids@[i as int]@);
            }
            challenge_list.push(entry);
            challenge_burn_list.push(self.burn_challenge_piece_on_claim[i]);
            proof {
                assert(challenge_list.deep_view() =~= prefix.push(
                    self.challenge_nft_ids.deep_view()[i as int],
                ));
                assert(challenge_list.deep_view() =~= self.challenge_nft_ids.deep_view().take(
                    i + 1,
                ));
                assert(challenge_burn_list@ =~= self.burn_challenge_piece_on_claim@.take(i + 1));
            }
            i += 1;
        }
        proof {
            assert(challenge_list.deep_view() =~= self.challenge_nft_ids.deep_view());
            assert(challenge_burn_list@ =~= self.burn_challenge_piece_on_claim@);
        }
        ChallengeMetaData {
            owner_id: self.owner_id.clone(),
            name: self.name.clone(),
            description: self.description.clone(),
            media_link: Some(self.media_link.clone()),
            reward_nft_id: self.reward_nft_id.clone(),
            challenge_nft_ids: challenge_list,
            burn_challenge_piece_on_claim: challenge_burn_list,
            expiration_date_in_ns: self.expiration_date_in_ns,
            winner_limit: self.winner_limit,
            challenge_completed: self.challenge_completed,
            winners_count: self.winner_count,
            reward_nft_metadata: self.reward_nft_metadata.clone(),
            creator_can_update: self.creator_can_update,
        }
    }

    /// The current owner of this challenge.
    pub fn get_owner_id(&self) -> (r: String)
        ensures
            r@ == self@.owner_id,
    {
        self.owner_id.clone()
    }

    /// Whether the challenge has reached its expiration date at time `now`.
    pub fn is_challenge_expired(&self, now: u64) -> (r: bool)
        ensures
            r == (now >= self@.expiration_date_in_ns),
    {
        now >= self.expiration_date_in_ns
    }

    /// How many winner slots are neither committed nor reserved.
    pub fn potential_winners_left(&self) -> (r: u64)
        ensures
            r == self@.potential_winners_left,
    {
        self.potential_winners_left
    }

    /// Whether `account_id` has already won this challenge.
    pub fn is_account_winner(&self, account_id: &String) -> (r: bool)
        ensures
            r == self@.winners.contains_key(account_id@),
    {
        let n = self.winners.len();
        let mut i: usize = 0;
        let mut found = false;
        while i < n
            invariant
                i <= n,
                n == self.winners.len(),
                found == winners_map(self.winners@.take(i as int)).contains_key(account_id@),
            decreases n - i,
        {
            if self.winners[i].0.eq(account_id) {
                found = true;
            }
            proof {
                assert(self.winners@.take(i + 1).drop_last() =~= self.winners@.take(i as int));
                assert(self.winners@.take(i + 1).last() == self.winners@[i as int]);
            }
            i += 1;
        }
        proof {
            assert(self.winners@.take(n as int) =~= self.winners@);
        }
        found
    }

    /// Whether the challenge is completed.
    pub fn is_challenge_complete(&self) -> (r: bool)
        ensures
            r == self@.challenge_completed,
    {
        self.challenge_completed
    }

    /// Reserves one winner slot.
    pub fn decrement_winners(&mut self)
        requires
            old(self)@.potential_winners_left >= 1,
        ensures
            final(self)@ == reserve_slot(old(self)@),
    {
        proof {
            use_type_invariant(&*self);
        }
        self.potential_winners_left = self.potential_winners_left - 1;
    }

    /// Returns one reserved winner slot.
    pub fn increment_winners(&mut self)
        requires
            slots_in_flight(old(self)@) >= 1,
        ensures
            final(self)@ == release_slot(old(self)@),
    {
        proof {
            use_type_invariant(&*self);
        }
        self.potential_winners_left = self.potential_winners_left + 1;
    }

    /// Opens a claim by `claimant` at time `now`: checks every precondition
    /// and, if all pass, reserves a winner slot. On success the host must fan
    /// out one ownership lookup per challenge item, in list order, and hand
    /// the gathered responses to [`Contract::on_claim`]. A rejection changes
    /// no counter, except that checking expiry marks an expired challenge
    /// completed.
    pub fn initiate_claim(&mut self, claimant: &String, now: u64) -> (r: Result<(), ClaimError>)
        ensures
            r is Ok <==> claim_gate(old(self)@, claimant@, now) is None,
            r matches Err(e) ==> claim_gate(old(self)@, claimant@, now) == Some(e),
            final(self)@ == (if claim_gate(old(self)@, claimant@, now) is None {
                reserve_slot(old(self)@)
            } else {
                gate_state(old(self)@, now)
            }),
    {
        proof {
            use_type_invariant(&*self);
        }
        if self.winner_count >= self.winner_limit {
            return Err(ClaimError::NoMoreWinners);
        }
        if self.potential_winners_left == 0 {
            return Err(ClaimError::SlotsExhausted);
        }
        if self.challenge_completed {
            return Err(ClaimError::ChallengeOver);
        }
        if now > self.expiration_date_in_ns {
            self.challenge_completed = true;
            return Err(ClaimError::ChallengeExpired);
        }
        if self.is_account_winner(claimant) {
            return Err(ClaimError::AlreadyWon);
        }
        self.decrement_winners();
        Ok(())
    }

    /// Settles the ownership round of `winner_id`'s claim. Each entry of
    /// `ownership_results` is one registry's response, index-aligned with the
    /// challenge items: `None` for a failed call, otherwise the token list it
    /// returned. If any index proves no ownership, the reserved slot is
    /// returned and the first such index is reported. Otherwise, with no item
    /// flagged burn-on-claim the claim commits at once; else the captured
    /// first token of every index moves on to the approval round.
    pub fn on_claim(
        &mut self,
        winner_id: &String,
        ownership_results: &Vec<Option<Vec<TokenCompliant>>>,
    ) -> (r: ClaimOutcome)
        requires
            ownership_results@.len() == old(self)@.challenge_nft_ids.len(),
            slots_in_flight(old(self)@) >= 1,
        ensures
            ({
                let results = ownership_results.deep_view();
                let pre = old(self)@;
                &&& (r matches ClaimOutcome::NotOwned { failed_index } ==> {
                    &&& 0 <= failed_index < results.len()
                    &&& !owned_at(results, failed_index as int)
                    &&& (forall|k: int| 0 <= k < failed_index ==> owned_at(results, k))
                    &&& final(self)@ == release_slot(pre)
                })
                &&& ((r is NotOwned) <==> !all_owned(results))
                &&& (r is Won ==> final(self)@ == commit_claim(pre, winner_id@))
                &&& ((r is Won) <==> all_owned(results) && !any_burn(pre.burn_on_claim))
                &&& (r matches ClaimOutcome::NeedApprovals { token_ids } ==> {
                    &&& token_ids.deep_view() == Seq::new(
                        results.len(),
                        |i: int| first_token_at(results, i),
                    )
                    &&& final(self)@ == pre
                })
                &&& ((r is NeedApprovals) <==> all_owned(results) && any_burn(pre.burn_on_claim))
            }),
    {
        proof {
            use_type_invariant(&*self);
        }
        let ghost results = ownership_results.deep_view();
        let n = self.challenge_nft_ids.len();
        let mut token_ids: Vec<String> = Vec::new();
        let mut idx: usize = 0;
        while idx < n
            invariant
                idx <= n,
                *self == *old(self),
                slots_in_flight(self@) >= 1,
                n == self.challenge_nft_ids@.len(),
                ownership_results@.len() == n,
                results == ownership_results.deep_view(),
                results.len() == n,
                forall|k: int| 0 <= k < idx ==> owned_at(results, k),
                token_ids@.len() == idx,
                forall|k: int|
                    0 <= k < idx ==> (#[trigger] token_ids.deep_view()[k]) == first_token_at(
                        results,
                        k,
                    ),
            decreases n - idx,
        {
            proof {
                assert(results[idx as int] == ownership_results@[idx as int].deep_view());
            }
            match &ownership_results[idx] {
                None => {
                    proof {
                        assert(!owned_at(results, idx as int));
                    }
                    self.increment_winners();
                    return ClaimOutcome::NotOwned { failed_index: idx };
                },
                Some(tokens) => {
                    if tokens.len() == 0 {
                        proof {
                            assert(results[idx as int].unwrap() =~= Seq::<Seq<char>>::empty());
                            assert(!owned_at(results, idx as int));
                        }
                        self.increment_winners();
                        return ClaimOutcome::NotOwned { failed_index: idx };
                    }
                    let token_id = tokens[0].token_id.clone();
                    proof {
                        assert(results[idx as int].unwrap() == tokens.deep_view());
                        assert(tokens.deep_view().len() == tokens@.len());
                        assert(owned_at(results, idx as int));
                        assert(token_id@ == first_token_at(results, idx as int));
                    }
                    let ghost pre_tokens = token_ids;
                    token_ids.push(token_id);
                    proof {
                        assert forall|k: int|
                            0 <= k < idx + 1 implies #[trigger] token_ids.deep_view()[k]
                            == first_token_at(results, k) by {
                            assert(token_ids.deep_view()[k] == token_ids@[k].deep_view());
                            if k < idx {
                                assert(token_ids@[k] == pre_tokens@[k]);
                                assert(pre_tokens.deep_view()[k] == pre_tokens@[k].deep_view());
                            }
                        }
                    }
                },
            }
            idx += 1;
        }
        let mut burn_any = false;
        let mut k: usize = 0;
        while k < n
            invariant
                k <= n,
                *self == *old(self),
                n == self.burn_challenge_piece_on_claim@.len(),
                burn_any == (exists|l: int|
                    0 <= l < k && self.burn_challenge_piece_on_claim@[l]),
            decreases n - k,
        {
            if self.burn_challenge_piece_on_claim[k] {
                burn_any = true;
            }
            k += 1;
        }
        if !burn_any {
            self.commit_winner(winner_id);
            return ClaimOutcome::Won;
        }
        proof {
            assert(token_ids.deep_view() =~= Seq::new(
                results.len(),
                |i: int| first_token_at(results, i),
            ));
        }
        ClaimOutcome::NeedApprovals { token_ids }
    }

    /// Builds the approval round's fan-out: for each index, the registry of
    /// that challenge item is asked for the transfer approval of that index's
    /// captured token. Every index takes part, burn-flagged or not, so the
    /// round stays aligned with the burn flags and the token list.
    pub fn have_approvals_for_transfers(&self, token_ids: &Vec<String>) -> (r: Vec<
        (String, String),
    >)
        requires
            token_ids@.len() == self@.challenge_nft_ids.len(),
        ensures
            item_token_pairing(r@, self@.challenge_nft_ids, token_ids.deep_view()),
    {
        proof {
            use_type_invariant(self);
        }
        self.item_token_pairs(token_ids)
    }

    /// Settles the approval round. Each entry of `approval_results` is one
    /// registry's response, index-aligned: `None` for a failed call or an
    /// answer that carried no approval id. Any missing approval returns the
    /// reserved slot and reports the first such index, with no transfer
    /// attempted for any item. Otherwise the host must issue one transfer per
    /// index, each carrying its captured token and approval id.
    pub fn on_approval_check(
        &mut self,
        token_ids: &Vec<String>,
        approval_results: &Vec<Option<u64>>,
    ) -> (r: ApprovalOutcome)
        requires
            token_ids@.len() == old(self)@.challenge_nft_ids.len(),
            approval_results@.len() == old(self)@.challenge_nft_ids.len(),
            slots_in_flight(old(self)@) >= 1,
        ensures
            ({
                let pre = old(self)@;
                &&& (r matches ApprovalOutcome::NotApproved { failed_index } ==> {
                    &&& 0 <= failed_index < approval_results@.len()
                    &&& approval_results@[failed_index as int] is None
                    &&& (forall|k: int|
                        0 <= k < failed_index ==> approval_results@[k] is Some)
                    &&& final(self)@ == release_slot(pre)
                })
                &&& ((r is NotApproved) <==> !all_approved(approval_results@))
                &&& (r matches ApprovalOutcome::Transfers { transfers } ==> {
                    &&& transfers@.len() == pre.challenge_nft_ids.len()
                    &&& (forall|i: int|
                        0 <= i < transfers@.len() ==> (#[trigger] transfers@[i]).0@
                            == pre.challenge_nft_ids[i] && transfers@[i].1@
                            == token_ids.deep_view()[i] && transfers@[i].2
                            == approval_results@[i].unwrap())
                    &&& final(self)@ == pre
                })
                &&& ((r is Transfers) <==> all_approved(approval_results@))
            }),
    {
        proof {
            use_type_invariant(&*self);
        }
        let n = self.challenge_nft_ids.len();
        let mut idx: usize = 0;
        while idx < n
            invariant
                idx <= n,
                *self == *old(self),
                slots_in_flight(self@) >= 1,
                n == self.challenge_nft_ids@.len(),
                approval_results@.len() == n,
                forall|k: int| 0 <= k < idx ==> approval_results@[k] is Some,
            decreases n - idx,
        {
            if approval_results[idx].is_none() {
                self.increment_winners();
                return ApprovalOutcome::NotApproved { failed_index: idx };
            }
            idx += 1;
        }
        let mut transfers: Vec<(String, String, u64)> = Vec::new();
        let mut i: usize = 0;
        while i < n
            invariant
                i <= n,
                *self == *old(self),
                n == self.challenge_nft_ids@.len(),
                token_ids@.len() == n,
                approval_results@.len() == n,
                forall|k: int| 0 <= k < n ==> approval_results@[k] is Some,
                transfers@.len() == i,
                forall|k: int|
                    0 <= k < i ==> (#[trigger] transfers@[k]).0@ == self@.challenge_nft_ids[k]
                        && transfers@[k].1@ == token_ids.deep_view()[k] && transfers@[k].2
                        == approval_results@[k].unwrap(),
            decreases n - i,
        {
            let approval_id = approval_results[i].unwrap();
            let registry_id = self.challenge_nft_ids[i].clone();
            let token_id = token_ids[i].clone();
            proof {
                assert(registry_id@ == self@.challenge_nft_ids[i as int]);
                assert(token_id@ == token_ids.deep_view()[i as int]);
            }
            transfers.push((registry_id, token_id, approval_id));
            i += 1;
        }
        ApprovalOutcome::Transfers { transfers }
    }

    /// Builds the burn round's fan-out: for each index, the registry of that
    /// challenge item is told to burn that index's captured token. The
    /// transfer round's responses are not consulted; a transferred but
    /// unburned token stays with the challenge.
    pub fn burn_nfts(&self, token_ids: &Vec<String>) -> (r: Vec<(String, String)>)
        requires
            token_ids@.len() == self@.challenge_nft_ids.len(),
        ensures
            item_token_pairing(r@, self@.challenge_nft_ids, token_ids.deep_view()),
    {
        proof {
            use_type_invariant(self);
        }
        self.item_token_pairs(token_ids)
    }

    /// Settles the burn round and with it the whole claim. Each entry of
    /// `burn_results` says whether that index's burn call succeeded. If every
    /// burn succeeded the claim commits: `winner_id` enters the winner
    /// registry and the winner count grows by one. Any failed burn returns
    /// the reserved slot and the claim fails.
    pub fn on_burn_nfts(&mut self, winner_id: &String, burn_results: &Vec<bool>) -> (r: bool)
        requires
            burn_results@.len() == old(self)@.challenge_nft_ids.len(),
            slots_in_flight(old(self)@) >= 1,
        ensures
            r == (forall|i: int| 0 <= i < burn_results@.len() ==> burn_results@[i]),
            r ==> final(self)@ == commit_claim(old(self)@, winner_id@),
            !r ==> final(self)@ == release_slot(old(self)@),
    {
        proof {
            use_type_invariant(&*self);
        }
        let n = burn_results.len();
        let mut idx: usize = 0;
        while idx < n
            invariant
                idx <= n,
                *self == *old(self),
                slots_in_flight(self@) >= 1,
                n == burn_results@.len(),
                forall|k: int| 0 <= k < idx ==> burn_results@[k],
            decreases n - idx,
        {
            if !burn_results[idx] {
                self.increment_winners();
                return false;
            }
            idx += 1;
        }
        self.commit_winner(winner_id);
        true
    }

    /// Gates the reward mint: only a committed winner may mint, and the
    /// attached deposit must cover the minting fee. On success the host
    /// issues the registry's mint call for the reward item.
    pub fn mint_nft(&self, claimant: &String, attached_deposit_millitoken: u128) -> (r: Result<
        (),
        MintError,
    >)
        ensures
            r == Err::<(), MintError>(MintError::NotWinner) <==> !self@.winners.contains_key(
                claimant@,
            ),
            self@.winners.contains_key(claimant@) ==> (r == Err::<(), MintError>(
                MintError::InsufficientDeposit,
            ) <==> attached_deposit_millitoken < MINTING_FEE_MILLITOKEN),
            r is Ok <==> self@.winners.contains_key(claimant@) && attached_deposit_millitoken
                >= MINTING_FEE_MILLITOKEN,
    {
        if !self.is_account_winner(claimant) {
            return Err(MintError::NotWinner);
        }
        if attached_deposit_millitoken < MINTING_FEE_MILLITOKEN {
            return Err(MintError::InsufficientDeposit);
        }
        Ok(())
    }

    /// Settles the mint call: a failure from the registry is fatal to the
    /// minting alone and touches neither the counters nor the registry of
    /// winners.
    pub fn mint_nft_callback(&self, mint_succeeded: bool) -> (r: Result<(), MintError>)
        ensures
            r is Ok <==> mint_succeeded,
            r matches Err(e) ==> e == MintError::MintFailed,
    {
        if mint_succeeded {
            Ok(())
        } else {
            Err(MintError::MintFailed)
        }
    }

    /// The owner-gated completion toggle: refused unless `caller` is the
    /// challenge owner and the configuration allows updating completion.
    pub fn update_challenge_completion_status(&mut self, caller: &String, is_complete: bool) -> (r:
        Result<(), AdminError>)
        ensures
            r == Err::<(), AdminError>(AdminError::NotChallengeOwner) <==> caller@ != old(
                self,
            )@.owner_id,
            caller@ == old(self)@.owner_id ==> (r == Err::<(), AdminError>(
                AdminError::CreatorCannotUpdate,
            ) <==> !old(self)@.creator_can_update),
            r is Ok <==> caller@ == old(self)@.owner_id && old(self)@.creator_can_update,
            r is Ok ==> final(self)@ == (ChallengeView {
                challenge_completed: is_complete,
                ..old(self)@
            }),
            r is Err ==> final(self)@ == old(self)@,
    {
        proof {
            use_type_invariant(&*self);
        }
        if !self.owner_id.eq(caller) {
            return Err(AdminError::NotChallengeOwner);
        }
        if self.creator_can_update {
            self.challenge_completed = is_complete;
            Ok(())
        } else {
            Err(AdminError::CreatorCannotUpdate)
        }
    }

    /// Checks expiry at time `now`, marking the challenge completed once the
    /// expiration date has passed, and reports whether it is completed.
    pub fn ensure_challenge_not_expired(&mut self, now: u64) -> (r: bool)
        ensures
            final(self)@ == expire_state(old(self)@, now),
            r == final(self)@.challenge_completed,
    {
        proof {
            use_type_invariant(&*self);
        }
        if now > self.expiration_date_in_ns {
            self.challenge_completed = true;
        }
        self.challenge_completed
    }

    /// Commits a claim: enters `winner_id` in the winner registry and counts
    /// one more winner, consuming the reserved slot.
    fn commit_winner(&mut self, winner_id: &String)
        requires
            slots_in_flight(old(self)@) >= 1,
        ensures
            final(self)@ == commit_claim(old(self)@, winner_id@),
    {
        proof {
            use_type_invariant(&*self);
        }
        let ghost pre_entries = self.winners@;
        self.winner_count = self.winner_count + 1;
        let mut entries: Vec<(String, u64)> = Vec::new();
        core::mem::swap(&mut entries, &mut self.winners);
        entries.push((winner_id.clone(), 1));
        core::mem::swap(&mut entries, &mut self.winners);
        proof {
            assert(self.winners@.drop_last() =~= pre_entries);
            assert(self@.winners =~= commit_claim(old(self)@, winner_id@).winners);
            assert(self@ =~= commit_claim(old(self)@, winner_id@));
        }
    }

    /// Pairs each challenge item's registry id with the captured token of
    /// the same index.
    fn item_token_pairs(&self, token_ids: &Vec<String>) -> (r: Vec<(String, String)>)
        requires
            token_ids@.len() == self@.challenge_nft_ids.len(),
        ensures
            item_token_pairing(r@, self@.challenge_nft_ids, token_ids.deep_view()),
    {
        let n = self.challenge_nft_ids.len();
        let mut r: Vec<(String, String)> = Vec::new();
        let mut i: usize = 0;
        while i < n
            invariant
                i <= n,
                n == self.challenge_nft_ids@.len(),
                token_ids@.len() == n,
                r@.len() == i,
                forall|k: int| 0 <= k < i ==> (#[trigger] r@[k]).0@ == self@.challenge_nft_ids[k],
                forall|k: int| 0 <= k < i ==> (#[trigger] r@[k]).1@ == token_ids.deep_view()[k],
            decreases n - i,
        {
            let registry_id = self.challenge_nft_ids[i].clone();
            let token_id = token_ids[i].clone();
            proof {
                assert(registry_id@ == self@.challenge_nft_ids[i as int]);
                assert(token_id@ == token_ids.deep_view()[i as int]);
            }
            r.push((registry_id, token_id));
            i += 1;
        }
        r
    }
}

/// Whether two entries of `ids` hold the same text.
fn has_duplicate(ids: &Vec<String>) -> (r: bool)
    ensures
        r == !pairwise_distinct(ids.deep_view()),
{
    let n = ids.len();
    let mut i: usize = 0;
    while i < n
        invariant
            i <= n,
            n == ids.len(),
            forall|k: int, l: int| 0 <= k < l < n && k < i ==> ids.deep_view()[k] != ids.deep_view()[l],
        decreases n - i,
    {
        let mut j: usize = i + 1;
        while j < n
            invariant
                i < j <= n,
                n == ids.len(),
                forall|l: int| i < l < j ==> ids.deep_view()[i as int] != ids.deep_view()[l],
            decreases n - j,
        {
            if ids[i].eq(&ids[j]) {
                proof {
                    assert(ids.deep_view()[i as int] == ids@[i as int]@);
                    assert(ids.deep_view()[j as int] == ids@[j as int]@);
                }
                return true;
            }
            j += 1;
        }
        i += 1;
    }
    false
}

} // verus!
