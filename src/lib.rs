//! A governance core: users submit data claims, validators vote on them,
//! and validated claims earn their submitters tokens.

pub mod types;
pub mod storage;
pub mod auth;
pub mod logic;
pub mod lemmas;
