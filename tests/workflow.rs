use ecochain_backend::auth::{
    ensure_user_exists, find_user, get_user_role_internal, is_admin, is_validator,
};
use ecochain_backend::logic::{
    can_reward_contributors, cast_vote, create_proposal, delete_data, entries_with_status,
    get_pending_data, get_proposals, get_user_profile, get_user_role, get_validated_data,
    get_wallet_address, next_id, promote_user_role, reward_contributors, submit_data,
    vote_on_data, REWARD,
};
use ecochain_backend::storage::{Registry, QUORUM};
use ecochain_backend::types::{DataEntry, DataStatus, GovernanceError, Proposal, Role, UserProfile};

fn s(x: &str) -> String {
    x.to_string()
}

/// A registry in which `admin` is an Admin, and each of `validators` a Validator.
fn setup(admin: &str, validators: &[&str]) -> Registry {
    let mut reg = Registry::new();
    let a = s(admin);
    ensure_user_exists(&mut reg, &a);
    let k = find_user(&reg.users, &a).unwrap();
    reg.users[k].role = Role::Admin;
    for v in validators {
        let v = s(v);
        ensure_user_exists(&mut reg, &v);
        promote_user_role(&mut reg, &a, v.clone(), Role::Validator).unwrap();
    }
    reg
}

fn profile<'a>(reg: &'a Registry, id: &str) -> &'a UserProfile {
    let k = find_user(&reg.users, &s(id)).unwrap();
    &reg.users[k]
}

#[test]
fn end_to_end_submit_vote_reward() {
    let mut reg = setup("admin", &["v1", "v2"]);
    let u1 = s("u1");
    submit_data(&mut reg, &u1, s("evidence A"));
    let pending = get_pending_data(&reg);
    assert_eq!(pending.len(), 1);
    assert_eq!(pending[0].id, 1);
    assert_eq!(pending[0].content, "evidence A");
    assert_eq!(pending[0].submitted_by, "u1");
    assert_eq!(pending[0].status, DataStatus::Pending);
    assert_eq!((pending[0].votes_for, pending[0].votes_against), (0, 0));

    assert_eq!(vote_on_data(&mut reg, &s("v1"), 1, true), Ok(()));
    assert_eq!(reg.data_entries[0].votes_for, 1);
    assert_eq!(reg.data_entries[0].status, DataStatus::Pending);

    assert_eq!(vote_on_data(&mut reg, &s("v2"), 1, true), Ok(()));
    assert_eq!(reg.data_entries[0].votes_for, 2);
    assert_eq!(reg.data_entries[0].status, DataStatus::Validated);
    assert!(get_pending_data(&reg).is_empty());
    assert_eq!(get_validated_data(&reg).len(), 1);

    let before = profile(&reg, "u1").tokens;
    assert!(can_reward_contributors(&reg));
    reward_contributors(&mut reg);
    assert_eq!(profile(&reg, "u1").tokens, before + 10);
}

#[test]
fn delete_requires_admin() {
    let mut reg = setup("admin", &[]);
    submit_data(&mut reg, &s("u1"), s("evidence A"));
    assert_eq!(
        delete_data(&mut reg, &s("u1"), 1),
        Err(GovernanceError::AuthorizationDenied)
    );
    assert_eq!(reg.data_entries.len(), 1);
    assert_eq!(reg.data_entries[0].id, 1);
    assert_eq!(delete_data(&mut reg, &s("admin"), 1), Ok(()));
    assert!(get_pending_data(&reg).iter().all(|e| e.id != 1));
    assert!(get_validated_data(&reg).iter().all(|e| e.id != 1));
    assert!(reg.data_entries.is_empty());
}

#[test]
fn delete_of_missing_id_is_a_no_op() {
    let mut reg = setup("admin", &[]);
    submit_data(&mut reg, &s("u1"), s("a"));
    submit_data(&mut reg, &s("u1"), s("b"));
    assert_eq!(delete_data(&mut reg, &s("admin"), 7), Ok(()));
    assert_eq!(reg.data_entries.len(), 2);
    assert_eq!(delete_data(&mut reg, &s("admin"), 1), Ok(()));
    assert_eq!(reg.data_entries.len(), 1);
    assert_eq!(reg.data_entries[0].id, 2);
    assert_eq!(reg.data_entries[0].content, "b");
}

#[test]
fn validated_wins_when_both_quorums_are_reached() {
    let mut e = DataEntry {
        id: 5,
        content: s("x"),
        submitted_by: s("u"),
        status: DataStatus::Pending,
        votes_for: 1,
        votes_against: 2,
    };
    cast_vote(&mut e, true);
    assert_eq!((e.votes_for, e.votes_against), (2, 2));
    assert_eq!(e.status, DataStatus::Validated);
}

#[test]
fn two_rejections_reject_a_claim() {
    let mut reg = setup("admin", &["v1", "v2", "v3"]);
    submit_data(&mut reg, &s("u1"), s("c"));
    vote_on_data(&mut reg, &s("v1"), 1, false).unwrap();
    assert_eq!(reg.data_entries[0].status, DataStatus::Pending);
    vote_on_data(&mut reg, &s("v2"), 1, false).unwrap();
    assert_eq!(reg.data_entries[0].status, DataStatus::Rejected);
    assert_eq!(reg.data_entries[0].votes_against, QUORUM);
    // settled: further votes change nothing
    vote_on_data(&mut reg, &s("v3"), 1, true).unwrap();
    vote_on_data(&mut reg, &s("v3"), 1, false).unwrap();
    assert_eq!(reg.data_entries[0].status, DataStatus::Rejected);
    assert_eq!((reg.data_entries[0].votes_for, reg.data_entries[0].votes_against), (0, 2));
    assert!(get_validated_data(&reg).is_empty());
    assert!(get_pending_data(&reg).is_empty());
}

#[test]
fn votes_on_validated_claim_are_ignored() {
    let mut reg = setup("admin", &["v1", "v2", "v3"]);
    submit_data(&mut reg, &s("u1"), s("c"));
    vote_on_data(&mut reg, &s("v1"), 1, true).unwrap();
    vote_on_data(&mut reg, &s("v2"), 1, true).unwrap();
    vote_on_data(&mut reg, &s("v3"), 1, false).unwrap();
    vote_on_data(&mut reg, &s("v3"), 1, false).unwrap();
    assert_eq!(reg.data_entries[0].status, DataStatus::Validated);
    assert_eq!((reg.data_entries[0].votes_for, reg.data_entries[0].votes_against), (2, 0));
}

#[test]
fn vote_on_missing_claim_is_a_no_op() {
    let mut reg = setup("admin", &["v1"]);
    submit_data(&mut reg, &s("u1"), s("c"));
    assert_eq!(vote_on_data(&mut reg, &s("v1"), 42, true), Ok(()));
    assert_eq!(reg.data_entries[0].votes_for, 0);
}

#[test]
fn non_validator_vote_changes_nothing() {
    let mut reg = setup("admin", &[]);
    submit_data(&mut reg, &s("u1"), s("c"));
    let users_before = reg.users.len();
    for who in ["u1", "stranger", "admin"] {
        assert_eq!(
            vote_on_data(&mut reg, &s(who), 1, true),
            Err(GovernanceError::AuthorizationDenied)
        );
    }
    assert_eq!(reg.users.len(), users_before);
    assert!(find_user(&reg.users, &s("stranger")).is_none());
    assert_eq!(reg.data_entries[0].votes_for, 0);
    assert_eq!(reg.data_entries[0].status, DataStatus::Pending);
}

#[test]
fn ensure_user_exists_is_idempotent() {
    let mut reg = Registry::new();
    let u = s("u1");
    for _ in 0..3 {
        ensure_user_exists(&mut reg, &u);
    }
    assert_eq!(reg.users.len(), 1);
    let p = profile(&reg, "u1");
    assert_eq!(p.role, Role::User);
    assert_eq!((p.submissions, p.tokens), (0, 0));
    assert_eq!(p.wallet_address, "u1");
    submit_data(&mut reg, &u, s("c"));
    ensure_user_exists(&mut reg, &u);
    assert_eq!(reg.users.len(), 1);
    assert_eq!(profile(&reg, "u1").submissions, 1);
}

#[test]
fn reward_twice_credits_twice() {
    let mut reg = setup("admin", &["v1", "v2"]);
    submit_data(&mut reg, &s("u1"), s("a"));
    submit_data(&mut reg, &s("u1"), s("b"));
    submit_data(&mut reg, &s("u2"), s("c"));
    for id in [1, 3] {
        vote_on_data(&mut reg, &s("v1"), id, true).unwrap();
        vote_on_data(&mut reg, &s("v2"), id, true).unwrap();
    }
    reward_contributors(&mut reg);
    assert_eq!(profile(&reg, "u1").tokens, 10);
    assert_eq!(profile(&reg, "u2").tokens, 10);
    reward_contributors(&mut reg);
    assert_eq!(profile(&reg, "u1").tokens, 20);
    assert_eq!(profile(&reg, "u2").tokens, 20);
    assert_eq!(profile(&reg, "v1").tokens, 0);
    assert_eq!(REWARD, 10);
}

#[test]
fn reward_skips_unregistered_submitter() {
    let mut reg = Registry::new();
    reg.data_entries.push(DataEntry {
        id: 1,
        content: s("c"),
        submitted_by: s("ghost"),
        status: DataStatus::Validated,
        votes_for: 2,
        votes_against: 0,
    });
    reg.next_data_id = 2;
    reward_contributors(&mut reg);
    assert!(reg.users.is_empty());
}

#[test]
fn reward_overflow_is_detected() {
    let mut reg = setup("admin", &["v1", "v2"]);
    submit_data(&mut reg, &s("u1"), s("a"));
    vote_on_data(&mut reg, &s("v1"), 1, true).unwrap();
    vote_on_data(&mut reg, &s("v2"), 1, true).unwrap();
    let k = find_user(&reg.users, &s("u1")).unwrap();
    reg.users[k].tokens = u64::MAX - 10;
    assert!(can_reward_contributors(&reg));
    reg.users[k].tokens = u64::MAX - 9;
    assert!(!can_reward_contributors(&reg));
}

#[test]
fn claim_ids_increase_across_proposals() {
    let mut reg = Registry::new();
    let u = s("u1");
    submit_data(&mut reg, &u, s("a"));
    create_proposal(&mut reg, &u, s("t"), s("d"));
    create_proposal(&mut reg, &u, s("t2"), s("d2"));
    submit_data(&mut reg, &u, s("b"));
    let a = reg.data_entries[0].id;
    let b = reg.data_entries[1].id;
    assert_eq!((a, b), (1, 2));
    assert!(b > a);
    let props = get_proposals(&reg);
    assert_eq!(props.len(), 2);
    assert_eq!((props[0].id, props[1].id), (1, 2));
    assert_eq!(profile(&reg, "u1").submissions, 2);
}

#[test]
fn next_id_hands_out_and_advances() {
    let mut c: u64 = 7;
    assert_eq!(next_id(&mut c), 7);
    assert_eq!(next_id(&mut c), 8);
    assert_eq!(c, 9);
}

#[test]
fn proposal_fields_are_recorded() {
    let mut reg = Registry::new();
    create_proposal(&mut reg, &s("p1"), s("Title"), s("Desc"));
    let props: Vec<Proposal> = get_proposals(&reg);
    assert_eq!(props[0].title, "Title");
    assert_eq!(props[0].description, "Desc");
    assert_eq!(props[0].created_by, "p1");
    assert_eq!((props[0].votes_for, props[0].votes_against), (0, 0));
    assert!(find_user(&reg.users, &s("p1")).is_some());
    assert_eq!(reg.next_data_id, 1);
}

#[test]
fn promote_requires_admin() {
    let mut reg = setup("admin", &[]);
    ensure_user_exists(&mut reg, &s("u1"));
    assert_eq!(
        promote_user_role(&mut reg, &s("u1"), s("u1"), Role::Admin),
        Err(GovernanceError::AuthorizationDenied)
    );
    assert_eq!(profile(&reg, "u1").role, Role::User);
    assert_eq!(promote_user_role(&mut reg, &s("admin"), s("u1"), Role::Validator), Ok(()));
    assert_eq!(profile(&reg, "u1").role, Role::Validator);
    assert!(is_validator(&reg, &s("u1")));
    assert!(!is_admin(&reg, &s("u1")));
    assert!(is_admin(&reg, &s("admin")));
    // unknown target: nothing happens
    let n = reg.users.len();
    assert_eq!(promote_user_role(&mut reg, &s("admin"), s("nobody"), Role::Admin), Ok(()));
    assert_eq!(reg.users.len(), n);
}

#[test]
fn unregistered_caller_defaults_to_user() {
    let reg = Registry::new();
    assert_eq!(get_user_role_internal(&reg, &s("x")), Role::User);
    assert!(!is_validator(&reg, &s("x")));
    assert!(!is_admin(&reg, &s("x")));
}

#[test]
fn get_user_role_registers_caller() {
    let mut reg = setup("admin", &[]);
    assert_eq!(get_user_role(&mut reg, &s("new")), Role::User);
    assert!(find_user(&reg.users, &s("new")).is_some());
    assert_eq!(get_user_role(&mut reg, &s("admin")), Role::Admin);
}

#[test]
fn get_user_profile_registers_and_copies() {
    let mut reg = Registry::new();
    let p = get_user_profile(&mut reg, &s("w")).unwrap();
    assert_eq!(p.role, Role::User);
    assert_eq!(p.wallet_address, "w");
    assert_eq!((p.submissions, p.tokens), (0, 0));
    assert_eq!(reg.users.len(), 1);
}

#[test]
fn wallet_address_is_caller_identifier() {
    assert_eq!(get_wallet_address(&s("aaaaa-aa")), "aaaaa-aa");
}

#[test]
fn listings_keep_insertion_order() {
    let mut reg = setup("admin", &["v1", "v2"]);
    for c in ["a", "b", "c", "d"] {
        submit_data(&mut reg, &s("u1"), s(c));
    }
    vote_on_data(&mut reg, &s("v1"), 2, true).unwrap();
    vote_on_data(&mut reg, &s("v2"), 2, true).unwrap();
    vote_on_data(&mut reg, &s("v1"), 4, true).unwrap();
    vote_on_data(&mut reg, &s("v2"), 4, true).unwrap();
    let p: Vec<u64> = get_pending_data(&reg).iter().map(|e| e.id).collect();
    let v: Vec<u64> = get_validated_data(&reg).iter().map(|e| e.id).collect();
    assert_eq!(p, vec![1, 3]);
    assert_eq!(v, vec![2, 4]);
    let r = entries_with_status(&reg.data_entries, DataStatus::Rejected);
    assert!(r.is_empty());
}

#[test]
fn accessors_give_exclusive_access() {
    let mut reg = Registry::new();
    ensure_user_exists(&mut reg, &s("u"));
    let n = reg.with_users(|users| {
        let n = users.len();
        (users, n)
    });
    assert_eq!(n, 1);
    reg.with_data_entries(|mut entries| {
        entries.push(DataEntry {
            id: 1,
            content: s("c"),
            submitted_by: s("u"),
            status: DataStatus::Pending,
            votes_for: 0,
            votes_against: 0,
        });
        (entries, ())
    });
    assert_eq!(reg.data_entries.len(), 1);
    let k = reg.with_proposals(|p| {
        let k = p.len();
        (p, k)
    });
    assert_eq!(k, 0);
}
