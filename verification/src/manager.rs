//! Tokens of logged in managers.
use vstd::prelude::*;

verus! {

/// A login of a manager: where it came from and the salted hash of its token.
#[derive(Debug, Clone)]
pub struct ManagerToken {
    pub id: u32,
    pub user_id: u32,
    pub user_agent: String,
    pub ip: String,
    pub location: String,
    pub hash: Vec<u8>,
    pub salt: Vec<u8>,
}

} // verus!
