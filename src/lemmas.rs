use vstd::prelude::*;

use crate::auth::{fresh_profile, profile_of, registered, lemma_profile_at};
use crate::logic::{apply_vote, reward_all, rewarded, rewards_fit, validated_count, vote_outcome, REWARD};
use crate::storage::{entry_consistent, has_user, keys_unique, QUORUM};
use crate::types::{DataEntry, DataStatus, UserProfile};

verus! {

/// A settled claim (Validated or Rejected) is frozen: a vote leaves its
/// status and both counters as they are.
pub proof fn lemma_settled_claim_frozen(e: DataEntry, id: u64, approve: bool)
    requires
        e.status != DataStatus::Pending,
    ensures
        apply_vote(e, id, approve) == e,
{
}

/// A vote validates a claim exactly when the claim was Pending, was the one
/// voted on, and its approving count reaches the quorum; it rejects a claim
/// exactly when the claim was Pending, was the one voted on, and its
/// rejecting count reaches the quorum.
pub proof fn lemma_quorum_transitions(e: DataEntry, id: u64, approve: bool)
    requires
        entry_consistent(e),
    ensures
        (e.status != DataStatus::Validated && apply_vote(e, id, approve).status
            == DataStatus::Validated) <==> (e.status == DataStatus::Pending && e.id == id
            && apply_vote(e, id, approve).votes_for >= QUORUM),
        (e.status != DataStatus::Rejected && apply_vote(e, id, approve).status
            == DataStatus::Rejected) <==> (e.status == DataStatus::Pending && e.id == id
            && apply_vote(e, id, approve).votes_against >= QUORUM),
{
}

/// When one vote leaves both counters at the quorum, the approving quorum
/// wins: the claim becomes Validated.
pub proof fn lemma_validated_wins_tie(e: DataEntry, approve: bool)
    requires
        e.status == DataStatus::Pending,
        e.votes_for < u64::MAX,
        e.votes_against < u64::MAX,
        vote_outcome(e, approve).votes_for >= QUORUM,
        vote_outcome(e, approve).votes_against >= QUORUM,
    ensures
        vote_outcome(e, approve).status == DataStatus::Validated,
{
}

/// Registration is idempotent: a second contact by the same caller changes
/// nothing; the caller then has exactly one profile, and a profile created
/// by registration has role User and zero counters.
pub proof fn lemma_registration_idempotent(users: Seq<UserProfile>, caller: String)
    requires
        keys_unique(users),
    ensures
        registered(registered(users, caller), caller) == registered(users, caller),
        keys_unique(registered(users, caller)),
        has_user(registered(users, caller), caller@),
        forall|i: int, j: int|
            0 <= i < registered(users, caller).len() && 0 <= j < registered(users, caller).len()
                && (#[trigger] registered(users, caller)[i]).wallet_address@ == caller@
                && (#[trigger] registered(users, caller)[j]).wallet_address@ == caller@ ==> i == j,
        has_user(users, caller@) ==> registered(users, caller) == users,
        !has_user(users, caller@) ==> profile_of(registered(users, caller), caller@)
            == fresh_profile(caller),
{
    let once = registered(users, caller);
    if !has_user(users, caller@) {
        assert(once[users.len() as int].wallet_address@ == caller@);
        lemma_profile_at(once, users.len() as int);
    }
}

/// Two reward runs over unchanged claims credit twice: every balance grows
/// by twice the reward for each Validated claim of its owner, and nothing
/// else in a profile changes.
pub proof fn lemma_reward_twice(users: Seq<UserProfile>, entries: Seq<DataEntry>)
    requires
        forall|j: int|
            0 <= j < users.len() ==> (#[trigger] users[j]).tokens + 2 * REWARD * validated_count(
                entries,
                users[j].wallet_address@,
            ) <= u64::MAX,
    ensures
        rewards_fit(users, entries),
        rewards_fit(reward_all(users, entries), entries),
        reward_all(reward_all(users, entries), entries).len() == users.len(),
        forall|j: int|
            0 <= j < users.len() ==> (#[trigger] reward_all(reward_all(users, entries), entries)[j])
                == (UserProfile {
                tokens: (users[j].tokens + 2 * REWARD * validated_count(
                    entries,
                    users[j].wallet_address@,
                )) as u64,
                ..users[j]
            }),
{
    let once = reward_all(users, entries);
    let twice = reward_all(once, entries);
    assert forall|j: int| 0 <= j < users.len() implies {
        &&& (#[trigger] users[j]).tokens + REWARD * validated_count(entries, users[j].wallet_address@)
            <= u64::MAX
        &&& once[j].tokens + REWARD * validated_count(entries, once[j].wallet_address@) <= u64::MAX
        &&& twice[j] == (UserProfile {
            tokens: (users[j].tokens + 2 * REWARD * validated_count(entries, users[j].wallet_address@)) as u64,
            ..users[j]
        })
    } by {
        let c = validated_count(entries, users[j].wallet_address@);
        assert(users[j].tokens + 2 * REWARD * c <= u64::MAX);
        assert(2 * REWARD * c == REWARD * c + REWARD * c) by (nonlinear_arith);
        assert(once[j] == rewarded(users[j], entries));
        assert(once[j].tokens == users[j].tokens + REWARD * c);
        assert(once[j].wallet_address == users[j].wallet_address);
        assert(twice[j] == rewarded(once[j], entries));
        assert(twice[j].tokens == users[j].tokens + 2 * REWARD * c);
    }
    assert forall|j: int| 0 <= j < once.len() implies (#[trigger] once[j]).tokens + REWARD
        * validated_count(entries, once[j].wallet_address@) <= u64::MAX by {
        assert(users[j].tokens + REWARD * validated_count(entries, users[j].wallet_address@)
            <= u64::MAX);
    }
}

} // verus!
