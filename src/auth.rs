use vstd::prelude::*;

use crate::storage::{has_user, keys_unique, Registry};
use crate::types::{Role, UserProfile};

verus! {

/// The profile keyed by `id`; meaningful only where `has_user(users, id)`.
pub open spec fn profile_of(users: Seq<UserProfile>, id: Seq<char>) -> UserProfile {
    users[choose|i: int| 0 <= i < users.len() && (#[trigger] users[i]).wallet_address@ == id]
}

/// The role held by `id`: that of its profile, or `User` where it has none.
pub open spec fn role_of(users: Seq<UserProfile>, id: Seq<char>) -> Role {
    if has_user(users, id) {
        profile_of(users, id).role
    } else {
        Role::User
    }
}

/// The profiles after `caller` has made contact: unchanged if it was known,
/// else with its fresh profile appended.
pub open spec fn registered(users: Seq<UserProfile>, caller: String) -> Seq<UserProfile> {
    if has_user(users, caller@) {
        users
    } else {
        users.push(fresh_profile(caller))
    }
}

/// The profile that a first contact by `id` creates.
pub open spec fn fresh_profile(id: String) -> UserProfile {
    UserProfile { role: Role::User, submissions: 0, tokens: 0, wallet_address: id }
}

/// With unique keys, the profile of a stored key is the one at its index.
pub proof fn lemma_profile_at(users: Seq<UserProfile>, i: int)
    requires
        keys_unique(users),
        0 <= i < users.len(),
    ensures
        has_user(users, users[i].wallet_address@),
        profile_of(users, users[i].wallet_address@) == users[i],
        role_of(users, users[i].wallet_address@) == users[i].role,
{
    let id = users[i].wallet_address@;
    assert(users[i].wallet_address@ == id);
    let j = choose|j: int| 0 <= j < users.len() && (#[trigger] users[j]).wallet_address@ == id;
    assert(users[j].wallet_address@ == id);
}

/// The index of the profile keyed by `id`, if there is one.
pub fn find_user(users: &Vec<UserProfile>, id: &String) -> (r: Option<usize>)
    ensures
        match r {
            Some(i) => i < users@.len() && users@[i as int].wallet_address@ == id@,
            None => !has_user(users@, id@),
        },
{
    let n = users.len();
    let mut i: usize = 0;
    while i < n
        invariant
            n == users@.len(),
            i <= n,
            forall|j: int| 0 <= j < i ==> (#[trigger] users@[j]).wallet_address@ != id@,
        decreases n - i,
    {
        if users[i].wallet_address == *id {
            return Some(i);
        }
        i = i + 1;
    }
    None
}

/// Creates a profile for `caller` on first contact: role `User`, zero
/// counters, wallet address equal to the identifier. A known caller is left
/// as it is.
pub fn ensure_user_exists(reg: &mut Registry, caller: &String)
    requires
        old(reg).wf(),
    ensures
        final(reg).wf(),
        final(reg).data_entries == old(reg).data_entries,
        final(reg).proposals == old(reg).proposals,
        final(reg).next_data_id == old(reg).next_data_id,
        final(reg).next_proposal_id == old(reg).next_proposal_id,
        final(reg).users@ == registered(old(reg).users@, *caller),
        has_user(final(reg).users@, caller@),
{
    match find_user(&reg.users, caller) {
        Some(i) => {},
        None => {
            let profile = UserProfile {
                role: Role::User,
                submissions: 0,
                tokens: 0,
                wallet_address: caller.clone(),
            };
            reg.users.push(profile);
            let n = reg.users.len() - 1;
            assert(reg.users@[n as int].wallet_address@ == caller@);
        },
    }
}

/// The role of `principal`; `User` for an identifier that never registered.
pub fn get_user_role_internal(reg: &Registry, principal: &String) -> (r: Role)
    requires
        reg.wf(),
    ensures
        r == role_of(reg.users@, principal@),
{
    match find_user(&reg.users, principal) {
        Some(i) => {
            proof {
                lemma_profile_at(reg.users@, i as int);
            }
            reg.users[i].role
        },
        None => Role::User,
    }
}

/// Whether `principal` holds the `Validator` role.
pub fn is_validator(reg: &Registry, principal: &String) -> (r: bool)
    requires
        reg.wf(),
    ensures
        r == (role_of(reg.users@, principal@) == Role::Validator),
{
    get_user_role_internal(reg, principal) == Role::Validator
}

/// Whether `principal` holds the `Admin` role.
pub fn is_admin(reg: &Registry, principal: &String) -> (r: bool)
    requires
        reg.wf(),
    ensures
        r == (role_of(reg.users@, principal@) == Role::Admin),
{
    get_user_role_internal(reg, principal) == Role::Admin
}

} // verus!
