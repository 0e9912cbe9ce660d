use vstd::prelude::*;

use crate::auth::{
    ensure_user_exists, find_user, get_user_role_internal, is_admin, is_validator,
    lemma_profile_at, profile_of, registered, role_of,
};
use crate::storage::{entry_consistent, has_user, Registry, QUORUM};
use crate::types::{DataEntry, DataStatus, GovernanceError, Proposal, Role, UserProfile};

verus! {

/// Tokens credited per validated claim on each reward run.
pub const REWARD: u64 = 10;

/// A claim after one vote on it: the chosen counter goes up by one, then the
/// approving quorum is tested before the rejecting one.
pub open spec fn vote_outcome(e: DataEntry, approve: bool) -> DataEntry {
    let vf = if approve { e.votes_for + 1 } else { e.votes_for as int };
    let va = if approve { e.votes_against as int } else { e.votes_against + 1 };
    DataEntry {
        votes_for: vf as u64,
        votes_against: va as u64,
        status: if vf >= QUORUM {
            DataStatus::Validated
        } else if va >= QUORUM {
            DataStatus::Rejected
        } else {
            DataStatus::Pending
        },
        ..e
    }
}

/// A claim after a vote on claim `id`: only a Pending claim with that id moves.
pub open spec fn apply_vote(e: DataEntry, id: u64, approve: bool) -> DataEntry {
    if e.id == id && e.status == DataStatus::Pending {
        vote_outcome(e, approve)
    } else {
        e
    }
}

/// The claim that a submission creates.
pub open spec fn new_claim(id: u64, content: String, caller: String) -> DataEntry {
    DataEntry {
        id,
        content,
        submitted_by: caller,
        status: DataStatus::Pending,
        votes_for: 0,
        votes_against: 0,
    }
}

/// Hands out the counter's value and advances it by one.
pub fn next_id(counter: &mut u64) -> (r: u64)
    requires
        *old(counter) < u64::MAX,
    ensures
        r == *old(counter),
        *final(counter) == *old(counter) + 1,
{
    let r = *counter;
    *counter = r + 1;
    r
}

/// Casts one vote on a Pending claim.
pub fn cast_vote(e: &mut DataEntry, approve: bool)
    requires
        old(e).status == DataStatus::Pending,
        old(e).votes_for < u64::MAX,
        old(e).votes_against < u64::MAX,
    ensures
        *final(e) == vote_outcome(*old(e), approve),
{
    if approve {
        e.votes_for = e.votes_for + 1;
    } else {
        e.votes_against = e.votes_against + 1;
    }
    if e.votes_for >= QUORUM {
        e.status = DataStatus::Validated;
    } else if e.votes_against >= QUORUM {
        e.status = DataStatus::Rejected;
    }
}

/// Records a vote by `caller` on claim `id`. Only a Validator may vote;
/// anyone else is refused with nothing changed. A vote on a missing or
/// settled claim changes nothing.
pub fn vote_on_data(reg: &mut Registry, caller: &String, id: u64, approve: bool) -> (r: Result<
    (),
    GovernanceError,
>)
    requires
        old(reg).wf(),
    ensures
        final(reg).wf(),
        role_of(old(reg).users@, caller@) != Role::Validator ==> r == Err::<
            (),
            GovernanceError,
        >(GovernanceError::AuthorizationDenied) && *final(reg) == *old(reg),
        role_of(old(reg).users@, caller@) == Role::Validator ==> {
            &&& r == Ok::<(), GovernanceError>(())
            &&& final(reg).users == old(reg).users
            &&& final(reg).proposals == old(reg).proposals
            &&& final(reg).next_data_id == old(reg).next_data_id
            &&& final(reg).next_proposal_id == old(reg).next_proposal_id
            &&& final(reg).data_entries@.len() == old(reg).data_entries@.len()
            &&& forall|i: int|
                0 <= i < old(reg).data_entries@.len() ==> #[trigger] final(reg).data_entries@[i]
                    == apply_vote(old(reg).data_entries@[i], id, approve)
        },
{
    if !is_validator(reg, caller) {
        return Err(GovernanceError::AuthorizationDenied);
    }
    let ghost old_entries = reg.data_entries@;
    let n = reg.data_entries.len();
    let mut i: usize = 0;
    while i < n
        invariant
            reg.wf(),
            reg.users == old(reg).users,
            reg.proposals == old(reg).proposals,
            reg.next_data_id == old(reg).next_data_id,
            reg.next_proposal_id == old(reg).next_proposal_id,
            old_entries == old(reg).data_entries@,
            n == reg.data_entries@.len(),
            n == old_entries.len(),
            i <= n,
            forall|j: int| 0 <= j < i ==> #[trigger] reg.data_entries@[j] == apply_vote(
                old_entries[j], id, approve),
            forall|j: int| i <= j < n ==> #[trigger] reg.data_entries@[j] == old_entries[j],
        decreases n - i,
    {
        if reg.data_entries[i].id == id && reg.data_entries[i].status == DataStatus::Pending {
            cast_vote(&mut reg.data_entries[i], approve);
        }
        i = i + 1;
    }
    Ok(())
}

/// The profiles after `id` has been credited with one more submission.
pub open spec fn count_submission(users: Seq<UserProfile>, id: Seq<char>) -> Seq<UserProfile> {
    users.map_values(
        |u: UserProfile|
            if u.wallet_address@ == id {
                UserProfile { submissions: (u.submissions + 1) as u64, ..u }
            } else {
                u
            },
    )
}

/// Submits a new claim by `caller`: registers the caller if needed, counts
/// the submission, and appends a Pending claim with the next claim id and no
/// votes. The new id exceeds every id already stored.
pub fn submit_data(reg: &mut Registry, caller: &String, content: String)
    requires
        old(reg).wf(),
        old(reg).next_data_id < u64::MAX,
    ensures
        final(reg).wf(),
        final(reg).users@ == count_submission(registered(old(reg).users@, *caller), caller@),
        final(reg).data_entries@ == old(reg).data_entries@.push(
            new_claim(old(reg).next_data_id, content, *caller),
        ),
        forall|i: int|
            0 <= i < old(reg).data_entries@.len() ==> #[trigger] old(reg).data_entries@[i].id
                < old(reg).next_data_id,
        final(reg).next_data_id == old(reg).next_data_id + 1,
        final(reg).proposals == old(reg).proposals,
        final(reg).next_proposal_id == old(reg).next_proposal_id,
{
    ensure_user_exists(reg, caller);
    let ghost joined = reg.users@;
    match find_user(&reg.users, caller) {
        Some(k) => {
            reg.users[k].submissions = reg.users[k].submissions + 1;
            assert(reg.users@ =~= count_submission(joined, caller@));
        },
        None => {},
    }
    let id = next_id(&mut reg.next_data_id);
    let entry = DataEntry {
        id,
        content,
        submitted_by: caller.clone(),
        status: DataStatus::Pending,
        votes_for: 0,
        votes_against: 0,
    };
    reg.data_entries.push(entry);
}

/// The proposal that `create_proposal` appends.
pub open spec fn new_proposal(id: u64, title: String, description: String, caller: String) -> Proposal {
    Proposal { id, title, description, created_by: caller, votes_for: 0, votes_against: 0 }
}

/// Registers `caller` if needed and appends a proposal with the next
/// proposal id. Claim ids are untouched.
pub fn create_proposal(reg: &mut Registry, caller: &String, title: String, description: String)
    requires
        old(reg).wf(),
        old(reg).next_proposal_id < u64::MAX,
    ensures
        final(reg).wf(),
        final(reg).users@ == registered(old(reg).users@, *caller),
        final(reg).proposals@ == old(reg).proposals@.push(
            new_proposal(old(reg).next_proposal_id, title, description, *caller),
        ),
        final(reg).next_proposal_id == old(reg).next_proposal_id + 1,
        final(reg).data_entries == old(reg).data_entries,
        final(reg).next_data_id == old(reg).next_data_id,
{
    ensure_user_exists(reg, caller);
    let id = next_id(&mut reg.next_proposal_id);
    let proposal = Proposal {
        id,
        title,
        description,
        created_by: caller.clone(),
        votes_for: 0,
        votes_against: 0,
    };
    reg.proposals.push(proposal);
}

/// The number of Validated claims in `entries` submitted by `who`.
pub open spec fn validated_count(entries: Seq<DataEntry>, who: Seq<char>) -> nat
    decreases entries.len(),
{
    if entries.len() == 0 {
        0
    } else {
        validated_count(entries.drop_last(), who) + if entries.last().status
            == DataStatus::Validated && entries.last().submitted_by@ == who {
            1nat
        } else {
            0nat
        }
    }
}

/// A profile after one reward run over `entries`.
pub open spec fn rewarded(u: UserProfile, entries: Seq<DataEntry>) -> UserProfile {
    UserProfile {
        tokens: (u.tokens + REWARD * validated_count(entries, u.wallet_address@)) as u64,
        ..u
    }
}

/// All profiles after one reward run over `entries`.
pub open spec fn reward_all(users: Seq<UserProfile>, entries: Seq<DataEntry>) -> Seq<
    UserProfile,
> {
    users.map_values(|u: UserProfile| rewarded(u, entries))
}

/// Every balance can take one reward run over `entries` without overflow.
pub open spec fn rewards_fit(users: Seq<UserProfile>, entries: Seq<DataEntry>) -> bool {
    forall|j: int|
        0 <= j < users.len() ==> (#[trigger] users[j]).tokens + REWARD * validated_count(
            entries,
            users[j].wallet_address@,
        ) <= u64::MAX
}

/// Counting over a prefix grows by the indicator of the next claim.
pub proof fn lemma_validated_count_step(entries: Seq<DataEntry>, i: int, who: Seq<char>)
    requires
        0 <= i < entries.len(),
    ensures
        validated_count(entries.take(i + 1), who) == validated_count(entries.take(i), who) + if
            entries[i].status == DataStatus::Validated && entries[i].submitted_by@ == who {
            1nat
        } else {
            0nat
        },
{
    assert(entries.take(i + 1).drop_last() =~= entries.take(i));
}

/// A prefix counts no more than the whole.
pub proof fn lemma_validated_count_prefix(entries: Seq<DataEntry>, i: int, who: Seq<char>)
    requires
        0 <= i <= entries.len(),
    ensures
        validated_count(entries.take(i), who) <= validated_count(entries, who),
    decreases entries.len(),
{
    if i == entries.len() {
        assert(entries.take(i) =~= entries);
    } else {
        lemma_validated_count_prefix(entries.drop_last(), i, who);
        assert(entries.drop_last().take(i) =~= entries.take(i));
    }
}

/// Whether a reward run can credit every balance without overflow.
pub fn can_reward_contributors(reg: &Registry) -> (r: bool)
    ensures
        r == rewards_fit(reg.users@, reg.data_entries@),
{
    let ghost entries = reg.data_entries@;
    let m = reg.users.len();
    let n = reg.data_entries.len();
    let mut j: usize = 0;
    while j < m
        invariant
            m == reg.users@.len(),
            n == entries.len(),
            entries == reg.data_entries@,
            j <= m,
            forall|k: int|
                0 <= k < j ==> (#[trigger] reg.users@[k]).tokens + REWARD * validated_count(
                    entries,
                    reg.users@[k].wallet_address@,
                ) <= u64::MAX,
        decreases m - j,
    {
        let ghost who = reg.users@[j as int].wallet_address@;
        let mut acc: u64 = reg.users[j].tokens;
        let mut i: usize = 0;
        while i < n
            invariant
                m == reg.users@.len(),
                n == entries.len(),
                entries == reg.data_entries@,
                j < m,
                i <= n,
                who == reg.users@[j as int].wallet_address@,
                acc == reg.users@[j as int].tokens + REWARD * validated_count(entries.take(i as int), who),
            decreases n - i,
        {
            proof {
                lemma_validated_count_step(entries, i as int, who);
                lemma_validated_count_prefix(entries, i + 1, who);
            }
            if reg.data_entries[i].status == DataStatus::Validated
                && reg.data_entries[i].submitted_by == reg.users[j].wallet_address {
                if acc > u64::MAX - REWARD {
                    return false;
                }
                acc = acc + REWARD;
            }
            i = i + 1;
        }
        assert(entries.take(n as int) =~= entries);
        j = j + 1;
    }
    true
}

/// Credits `REWARD` tokens to the submitter of every Validated claim, once
/// per claim. Nothing marks a claim as rewarded: each run credits again.
pub fn reward_contributors(reg: &mut Registry)
    requires
        old(reg).wf(),
        rewards_fit(old(reg).users@, old(reg).data_entries@),
    ensures
        final(reg).wf(),
        final(reg).users@ == reward_all(old(reg).users@, old(reg).data_entries@),
        final(reg).data_entries == old(reg).data_entries,
        final(reg).proposals == old(reg).proposals,
        final(reg).next_data_id == old(reg).next_data_id,
        final(reg).next_proposal_id == old(reg).next_proposal_id,
{
    let ghost users0 = reg.users@;
    let ghost entries = reg.data_entries@;
    let n = reg.data_entries.len();
    let mut i: usize = 0;
    while i < n
        invariant
            reg.wf(),
            reg.data_entries == old(reg).data_entries,
            reg.proposals == old(reg).proposals,
            reg.next_data_id == old(reg).next_data_id,
            reg.next_proposal_id == old(reg).next_proposal_id,
            users0 == old(reg).users@,
            entries == reg.data_entries@,
            n == entries.len(),
            i <= n,
            rewards_fit(users0, entries),
            reg.users@.len() == users0.len(),
            forall|j: int|
                0 <= j < users0.len() ==> #[trigger] reg.users@[j] == rewarded(
                    users0[j],
                    entries.take(i as int),
                ),
        decreases n - i,
    {
        proof {
            assert forall|j: int| 0 <= j < users0.len() implies validated_count(
                entries.take(i + 1),
                #[trigger] users0[j].wallet_address@,
            ) == validated_count(entries.take(i as int), users0[j].wallet_address@) + if entries[i as int].status
                == DataStatus::Validated && entries[i as int].submitted_by@ == users0[j].wallet_address@ {
                1nat
            } else {
                0nat
            } && validated_count(entries.take(i + 1), users0[j].wallet_address@)
                <= validated_count(entries, users0[j].wallet_address@) by {
                lemma_validated_count_step(entries, i as int, users0[j].wallet_address@);
                lemma_validated_count_prefix(entries, i + 1, users0[j].wallet_address@);
            }
        }
        let ghost before = reg.users@;
        let ghost who = entries[i as int].submitted_by@;
        if reg.data_entries[i].status == DataStatus::Validated {
            match find_user(&reg.users, &reg.data_entries[i].submitted_by) {
                Some(k) => {
                    reg.users[k].tokens = reg.users[k].tokens + REWARD;
                    proof {
                        assert forall|j: int| 0 <= j < users0.len() implies #[trigger] reg.users@[j]
                            == rewarded(users0[j], entries.take(i + 1)) by {
                            if j != k {
                                assert(before[j].wallet_address@ != before[k as int].wallet_address@);
                            }
                        }
                    }
                },
                None => {
                    proof {
                        assert forall|j: int| 0 <= j < users0.len() implies #[trigger] reg.users@[j]
                            == rewarded(users0[j], entries.take(i + 1)) by {
                            assert(before[j].wallet_address@ != who);
                        }
                    }
                },
            }
        }
        i = i + 1;
    }
    assert(entries.take(n as int) =~= entries);
    assert(reg.users@ =~= reward_all(users0, entries));
}

/// Whether a claim is in status `status`.
pub open spec fn status_is(status: DataStatus) -> spec_fn(DataEntry) -> bool {
    |e: DataEntry| e.status == status
}

/// Whether a claim's id differs from `id`.
pub open spec fn id_is_not(id: u64) -> spec_fn(DataEntry) -> bool {
    |e: DataEntry| e.id != id
}

/// Copies of the claims in status `status`, in stored order.
pub fn entries_with_status(entries: &Vec<DataEntry>, status: DataStatus) -> (r: Vec<DataEntry>)
    ensures
        r@ == entries@.filter(status_is(status)),
{
    let n = entries.len();
    let mut out: Vec<DataEntry> = Vec::new();
    let mut i: usize = 0;
    while i < n
        invariant
            n == entries@.len(),
            i <= n,
            out@ == entries@.take(i as int).filter(status_is(status)),
        decreases n - i,
    {
        proof {
            reveal(Seq::filter);
            assert(entries@.take(i + 1).drop_last() =~= entries@.take(i as int));
        }
        if entries[i].status == status {
            out.push(entries[i].clone());
        }
        i = i + 1;
    }
    assert(entries@.take(n as int) =~= entries@);
    out
}

/// The Pending claims, in stored order.
pub fn get_pending_data(reg: &Registry) -> (r: Vec<DataEntry>)
    ensures
        r@ == reg.data_entries@.filter(status_is(DataStatus::Pending)),
{
    entries_with_status(&reg.data_entries, DataStatus::Pending)
}

/// The Validated claims, in stored order.
pub fn get_validated_data(reg: &Registry) -> (r: Vec<DataEntry>)
    ensures
        r@ == reg.data_entries@.filter(status_is(DataStatus::Validated)),
{
    entries_with_status(&reg.data_entries, DataStatus::Validated)
}

/// Removes the claim with id `id`, if any. Only an Admin may delete; anyone
/// else is refused with nothing changed.
pub fn delete_data(reg: &mut Registry, caller: &String, id: u64) -> (r: Result<(), GovernanceError>)
    requires
        old(reg).wf(),
    ensures
        final(reg).wf(),
        role_of(old(reg).users@, caller@) != Role::Admin ==> r == Err::<(), GovernanceError>(
            GovernanceError::AuthorizationDenied,
        ) && *final(reg) == *old(reg),
        role_of(old(reg).users@, caller@) == Role::Admin ==> {
            &&& r == Ok::<(), GovernanceError>(())
            &&& final(reg).data_entries@ == old(reg).data_entries@.filter(id_is_not(id))
            &&& final(reg).users == old(reg).users
            &&& final(reg).proposals == old(reg).proposals
            &&& final(reg).next_data_id == old(reg).next_data_id
            &&& final(reg).next_proposal_id == old(reg).next_proposal_id
        },
{
    if !is_admin(reg, caller) {
        return Err(GovernanceError::AuthorizationDenied);
    }
    let ghost old_entries = reg.data_entries@;
    let n = reg.data_entries.len();
    let mut kept: Vec<DataEntry> = Vec::new();
    let ghost mut src: Seq<int> = Seq::empty();
    let mut i: usize = 0;
    while i < n
        invariant
            reg.wf(),
            old_entries == reg.data_entries@,
            n == old_entries.len(),
            i <= n,
            kept@ == old_entries.take(i as int).filter(id_is_not(id)),
            src.len() == kept@.len(),
            forall|k: int|
                0 <= k < src.len() ==> 0 <= #[trigger] src[k] < i && kept@[k]
                    == old_entries[src[k]],
            forall|a: int, b: int| 0 <= a < b < src.len() ==> #[trigger] src[a] < #[trigger] src[b],
        decreases n - i,
    {
        proof {
            reveal(Seq::filter);
            assert(old_entries.take(i + 1).drop_last() =~= old_entries.take(i as int));
        }
        if reg.data_entries[i].id != id {
            kept.push(reg.data_entries[i].clone());
            proof {
                src = src.push(i as int);
            }
        }
        i = i + 1;
    }
    assert(old_entries.take(n as int) =~= old_entries);
    proof {
        assert forall|a: int, b: int|
            0 <= a < kept@.len() && 0 <= b < kept@.len() && a != b implies #[trigger] kept@[a].id
            != #[trigger] kept@[b].id by {
            if a < b {
                assert(src[a] < src[b]);
            } else {
                assert(src[b] < src[a]);
            }
        }
        assert forall|a: int| 0 <= a < kept@.len() implies #[trigger] kept@[a].id
            < reg.next_data_id && entry_consistent(kept@[a]) by {
            assert(kept@[a] == old_entries[src[a]]);
        }
    }
    reg.data_entries = kept;
    Ok(())
}

/// The profiles after the profile keyed by `target`, if any, takes `role`.
pub open spec fn with_role(users: Seq<UserProfile>, target: Seq<char>, role: Role) -> Seq<
    UserProfile,
> {
    users.map_values(
        |u: UserProfile|
            if u.wallet_address@ == target {
                UserProfile { role, ..u }
            } else {
                u
            },
    )
}

/// Gives the profile keyed by `user_principal`, if any, the role `new_role`.
/// Only an Admin may promote; anyone else is refused with nothing changed.
pub fn promote_user_role(
    reg: &mut Registry,
    caller: &String,
    user_principal: String,
    new_role: Role,
) -> (r: Result<(), GovernanceError>)
    requires
        old(reg).wf(),
    ensures
        final(reg).wf(),
        role_of(old(reg).users@, caller@) != Role::Admin ==> r == Err::<(), GovernanceError>(
            GovernanceError::AuthorizationDenied,
        ) && *final(reg) == *old(reg),
        role_of(old(reg).users@, caller@) == Role::Admin ==> {
            &&& r == Ok::<(), GovernanceError>(())
            &&& final(reg).users@ == with_role(old(reg).users@, user_principal@, new_role)
            &&& final(reg).data_entries == old(reg).data_entries
            &&& final(reg).proposals == old(reg).proposals
            &&& final(reg).next_data_id == old(reg).next_data_id
            &&& final(reg).next_proposal_id == old(reg).next_proposal_id
        },
{
    if !is_admin(reg, caller) {
        return Err(GovernanceError::AuthorizationDenied);
    }
    let ghost users0 = reg.users@;
    match find_user(&reg.users, &user_principal) {
        Some(k) => {
            reg.users[k].role = new_role;
            assert(reg.users@ =~= with_role(users0, user_principal@, new_role));
        },
        None => {
            assert(reg.users@ =~= with_role(users0, user_principal@, new_role));
        },
    }
    Ok(())
}

/// Registers `caller` if needed and returns a copy of its profile.
pub fn get_user_profile(reg: &mut Registry, caller: &String) -> (r: Option<UserProfile>)
    requires
        old(reg).wf(),
    ensures
        final(reg).wf(),
        final(reg).users@ == registered(old(reg).users@, *caller),
        final(reg).data_entries == old(reg).data_entries,
        final(reg).proposals == old(reg).proposals,
        final(reg).next_data_id == old(reg).next_data_id,
        final(reg).next_proposal_id == old(reg).next_proposal_id,
        r == Some(profile_of(final(reg).users@, caller@)),
{
    ensure_user_exists(reg, caller);
    match find_user(&reg.users, caller) {
        Some(k) => {
            proof {
                lemma_profile_at(reg.users@, k as int);
            }
            Some(reg.users[k].clone())
        },
        None => None,
    }
}

/// Registers `caller` if needed and returns its role. Registration never
/// changes a role: the result is the role the caller held before.
pub fn get_user_role(reg: &mut Registry, caller: &String) -> (r: Role)
    requires
        old(reg).wf(),
    ensures
        final(reg).wf(),
        final(reg).users@ == registered(old(reg).users@, *caller),
        final(reg).data_entries == old(reg).data_entries,
        final(reg).proposals == old(reg).proposals,
        final(reg).next_data_id == old(reg).next_data_id,
        final(reg).next_proposal_id == old(reg).next_proposal_id,
        r == role_of(final(reg).users@, caller@),
        r == role_of(old(reg).users@, caller@),
{
    let ghost users0 = reg.users@;
    ensure_user_exists(reg, caller);
    proof {
        if !has_user(users0, caller@) {
            lemma_profile_at(reg.users@, users0.len() as int);
        }
    }
    get_user_role_internal(reg, caller)
}

/// Copies of all proposals, in stored order.
pub fn get_proposals(reg: &Registry) -> (r: Vec<Proposal>)
    ensures
        r@ == reg.proposals@,
{
    let n = reg.proposals.len();
    let mut out: Vec<Proposal> = Vec::new();
    let mut i: usize = 0;
    while i < n
        invariant
            n == reg.proposals@.len(),
            i <= n,
            out@ == reg.proposals@.take(i as int),
        decreases n - i,
    {
        out.push(reg.proposals[i].clone());
        assert(out@ =~= reg.proposals@.take(i + 1));
        i = i + 1;
    }
    assert(reg.proposals@.take(n as int) =~= reg.proposals@);
    out
}

/// The wallet address of `caller`: its identifier itself.
pub fn get_wallet_address(caller: &String) -> (r: String)
    ensures
        r == *caller,
{
    caller.clone()
}

} // verus!
