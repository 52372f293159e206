//! Registration of a new user: the decisions of the flow that issues tokens,
//! hashes the password, checks that the email is unused, inserts the user and
//! shapes the response, stated and proved as a state machine whose outside
//! work (token issuance, hashing, the user store) is performed by the caller.
use vstd::prelude::*;

pub mod text;
pub mod types;
pub mod registration;
pub mod laws;

verus! {

} // verus!
