use vstd::prelude::*;

use crate::types::{DataEntry, DataStatus, Proposal, UserProfile};

verus! {

/// The number of same-direction votes that ends a claim's Pending status.
pub const QUORUM: u64 = 2;

/// The state shared by every operation: user profiles, data claims,
/// proposals, and the two id counters.
pub struct Registry {
    pub users: Vec<UserProfile>,
    pub data_entries: Vec<DataEntry>,
    pub proposals: Vec<Proposal>,
    pub next_data_id: u64,
    pub next_proposal_id: u64,
}

/// Whether `users` holds a profile whose key is `id`.
pub open spec fn has_user(users: Seq<UserProfile>, id: Seq<char>) -> bool {
    exists|i: int| 0 <= i < users.len() && (#[trigger] users[i]).wallet_address@ == id
}

/// No two profiles share a key.
pub open spec fn keys_unique(users: Seq<UserProfile>) -> bool {
    forall|i: int, j: int|
        0 <= i < users.len() && 0 <= j < users.len() && i != j
            ==> #[trigger] users[i].wallet_address@ != #[trigger] users[j].wallet_address@
}

/// No two claims share an id.
pub open spec fn ids_unique(entries: Seq<DataEntry>) -> bool {
    forall|i: int, j: int|
        0 <= i < entries.len() && 0 <= j < entries.len() && i != j
            ==> #[trigger] entries[i].id != #[trigger] entries[j].id
}

/// A claim's counters are consistent with its status: a Pending claim has
/// reached neither quorum, a Validated one has reached the approving quorum.
pub open spec fn entry_consistent(e: DataEntry) -> bool {
    &&& e.status == DataStatus::Pending ==> e.votes_for < QUORUM && e.votes_against < QUORUM
    &&& e.status == DataStatus::Validated ==> e.votes_for >= QUORUM
    &&& e.status == DataStatus::Rejected ==> e.votes_against >= QUORUM && e.votes_for < QUORUM
}

impl Registry {
    /// The registry's invariant.
    pub open spec fn wf(&self) -> bool {
        &&& keys_unique(self.users@)
        &&& ids_unique(self.data_entries@)
        &&& 1 <= self.next_data_id
        &&& 1 <= self.next_proposal_id
        &&& forall|i: int|
            0 <= i < self.data_entries@.len() ==> #[trigger] self.data_entries@[i].id
                < self.next_data_id
        &&& forall|i: int|
            0 <= i < self.data_entries@.len() ==> entry_consistent(#[trigger] self.data_entries@[i])
        &&& forall|i: int|
            0 <= i < self.proposals@.len() ==> #[trigger] self.proposals@[i].id
                < self.next_proposal_id
        &&& forall|i: int|
            0 <= i < self.users@.len() ==> #[trigger] self.users@[i].submissions
                < self.next_data_id
    }

    /// An empty registry whose id counters both start at 1.
    pub fn new() -> (r: Registry)
        ensures
            r.wf(),
            r.users@.len() == 0,
            r.data_entries@.len() == 0,
            r.proposals@.len() == 0,
            r.next_data_id == 1,
            r.next_proposal_id == 1,
    {
        Registry {
            users: Vec::new(),
            data_entries: Vec::new(),
            proposals: Vec::new(),
            next_data_id: 1,
            next_proposal_id: 1,
        }
    }

    /// Runs `f` with exclusive access to the user profiles: `f` takes them and
    /// hands back their new value together with its result.
    pub fn with_users<R, F: FnOnce(Vec<UserProfile>) -> (Vec<UserProfile>, R)>(&mut self, f: F) -> (r: R)
        requires
            f.requires((old(self).users,)),
        ensures
            f.ensures((old(self).users,), (final(self).users, r)),
            final(self).data_entries == old(self).data_entries,
            final(self).proposals == old(self).proposals,
            final(self).next_data_id == old(self).next_data_id,
            final(self).next_proposal_id == old(self).next_proposal_id,
    {
        let mut taken: Vec<UserProfile> = Vec::new();
        std::mem::swap(&mut taken, &mut self.users);
        let (back, r) = f(taken);
        self.users = back;
        r
    }

    /// Runs `f` with exclusive access to the data claims: `f` takes them and
    /// hands back their new value together with its result.
    pub fn with_data_entries<R, F: FnOnce(Vec<DataEntry>) -> (Vec<DataEntry>, R)>(&mut self, f: F) -> (r: R)
        requires
            f.requires((old(self).data_entries,)),
        ensures
            f.ensures((old(self).data_entries,), (final(self).data_entries, r)),
            final(self).users == old(self).users,
            final(self).proposals == old(self).proposals,
            final(self).next_data_id == old(self).next_data_id,
            final(self).next_proposal_id == old(self).next_proposal_id,
    {
        let mut taken: Vec<DataEntry> = Vec::new();
        std::mem::swap(&mut taken, &mut self.data_entries);
        let (back, r) = f(taken);
        self.data_entries = back;
        r
    }

    /// Runs `f` with exclusive access to the proposals: `f` takes them and
    /// hands back their new value together with its result.
    pub fn with_proposals<R, F: FnOnce(Vec<Proposal>) -> (Vec<Proposal>, R)>(&mut self, f: F) -> (r: R)
        requires
            f.requires((old(self).proposals,)),
        ensures
            f.ensures((old(self).proposals,), (final(self).proposals, r)),
            final(self).users == old(self).users,
            final(self).data_entries == old(self).data_entries,
            final(self).next_data_id == old(self).next_data_id,
            final(self).next_proposal_id == old(self).next_proposal_id,
    {
        let mut taken: Vec<Proposal> = Vec::new();
        std::mem::swap(&mut taken, &mut self.proposals);
        let (back, r) = f(taken);
        self.proposals = back;
        r
    }
}

} // verus!
