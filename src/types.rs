use vstd::prelude::*;

verus! {

/// Where a data claim stands in the voting workflow.
#[derive(Clone, Copy, Debug, PartialEq, Eq, Structural)]
pub enum DataStatus {
    Pending,
    Validated,
    Rejected,
}

/// The privilege level of a caller.
#[derive(Clone, Copy, Debug, PartialEq, Eq, Structural)]
pub enum Role {
    User,
    Validator,
    Admin,
}

/// A gated operation was attempted by a caller without the required role.
#[derive(Clone, Copy, Debug, PartialEq, Eq, Structural)]
pub enum GovernanceError {
    AuthorizationDenied,
}

/// A registered caller's profile, keyed by its wallet address (the string
/// form of the caller's identity).
#[derive(Debug)]
pub struct UserProfile {
    pub role: Role,
    pub submissions: u64,
    pub tokens: u64,
    pub wallet_address: String,
}

/// A user-submitted claim that validators vote on.
#[derive(Debug)]
pub struct DataEntry {
    pub id: u64,
    pub content: String,
    pub submitted_by: String,
    pub status: DataStatus,
    pub votes_for: u64,
    pub votes_against: u64,
}

/// A proposal; its vote counters carry no workflow meaning.
#[derive(Debug)]
pub struct Proposal {
    pub id: u64,
    pub title: String,
    pub description: String,
    pub created_by: String,
    pub votes_for: u64,
    pub votes_against: u64,
}

impl Clone for UserProfile {
    fn clone(&self) -> (r: Self)
        ensures
            r == *self,
    {
        UserProfile {
            role: self.role,
            submissions: self.submissions,
            tokens: self.tokens,
            wallet_address: self.wallet_address.clone(),
        }
    }
}

impl Clone for DataEntry {
    fn clone(&self) -> (r: Self)
        ensures
            r == *self,
    {
        DataEntry {
            id: self.id,
            content: self.content.clone(),
            submitted_by: self.submitted_by.clone(),
            status: self.status,
            votes_for: self.votes_for,
            votes_against: self.votes_against,
        }
    }
}

impl Clone for Proposal {
    fn clone(&self) -> (r: Self)
        ensures
            r == *self,
    {
        Proposal {
            id: self.id,
            title: self.title.clone(),
            description: self.description.clone(),
            created_by: self.created_by.clone(),
            votes_for: self.votes_for,
            votes_against: self.votes_against,
        }
    }
}

} // verus!
