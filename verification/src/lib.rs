//! Verified core of a Roblox REST API client: the authenticated-request
//! protocol that every endpoint call passes through.
//!
//! The library models the protocol as data and decision functions with
//! contracts: a session state holding the credential and the rotating
//! anti-forgery token, a pure error classifier, an executor state machine
//! that attaches credentials, detects token invalidation and retries exactly
//! once, and a single-flight refresh coordinator. Network I/O itself is left
//! to the application around the library, which feeds responses back into
//! the state machine.

use vstd::prelude::*;

pub mod classify;
pub mod error;
pub mod executor;
pub mod identity;
pub mod protocol;
pub mod refresh;
pub mod request;
pub mod session;

pub use crate::error::RoboatError;

verus! {

/// The maximum amount of instances to return from an endpoint. Used as a
/// parameter in various methods that call endpoints. This is an enum instead
/// of an integer as these are the only values that are accepted by Roblox
/// for the limit parameter.
#[derive(Clone, Copy, Debug, PartialEq, Eq, PartialOrd, Ord, Hash, Structural)]
pub enum Limit {
    Ten,
    TwentyFive,
    Fifty,
    Hundred,
}

impl Limit {
    /// The numeric value sent to Roblox for this limit.
    pub open spec fn spec_to_u64(self) -> u64 {
        match self {
            Limit::Ten => 10,
            Limit::TwentyFive => 25,
            Limit::Fifty => 50,
            Limit::Hundred => 100,
        }
    }

    /// Converts the limit to the number Roblox expects in the query string.
    pub fn to_u64(self) -> (r: u64)
        ensures
            r == self.spec_to_u64(),
    {
        match self {
            Limit::Ten => 10,
            Limit::TwentyFive => 25,
            Limit::Fifty => 50,
            Limit::Hundred => 100,
        }
    }
}

impl Default for Limit {
    /// The default limit is the smallest one.
    fn default() -> (r: Self)
        ensures
            r == Limit::Ten,
    {
        Limit::Ten
    }
}

/// The universal struct for a Roblox user in this crate.
#[derive(Clone, Debug, PartialEq, Eq, PartialOrd, Ord, Hash)]
pub struct User {
    pub user_id: u64,
    pub username: String,
    pub display_name: String,
}

impl Default for User {
    /// An empty user record: id zero and empty names.
    fn default() -> (r: Self)
        ensures
            r.user_id == 0,
            r.username@ == Seq::<char>::empty(),
            r.display_name@ == Seq::<char>::empty(),
    {
        User { user_id: 0, username: String::new(), display_name: String::new() }
    }
}

} // verus!
