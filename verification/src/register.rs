//! Registering new users.
use vstd::prelude::*;
use vstd::utf8::encode_utf8;

use crate::external::{alphanumeric, is_alphanumeric};
use crate::text::chars_of;

verus! {

/// Why a registration is refused.
#[derive(Debug, Clone, Copy, PartialEq, Eq, Structural)]
pub enum RegisterError {
    UsernameTaken,
    InvalidUsername,
}

/// The answer to a refused registration.
#[derive(Debug, Clone, Copy, PartialEq, Eq, Structural)]
pub struct RegisterResponse(pub RegisterError);

impl RegisterResponse {
    /// The HTTP status of the answer: 470 for a taken name, 471 for an
    /// invalid one.
    pub fn status(&self) -> (res: (u16, &'static str))
        ensures
            self.0 == RegisterError::UsernameTaken ==> res.0 == 470 && res.1@ == "Username Taken"@,
            self.0 == RegisterError::InvalidUsername ==> res.0 == 471 && res.1@
                == "Invalid Username"@,
    {
        match self.0 {
            RegisterError::UsernameTaken => (470, "Username Taken"),
            RegisterError::InvalidUsername => (471, "Invalid Username"),
        }
    }
}

/// A user name is valid when every character is alphanumeric and it takes at
/// most 32 bytes.
pub open spec fn username_is_valid(name: Seq<char>) -> bool {
    &&& forall|i: int| 0 <= i < name.len() ==> #[trigger] alphanumeric(name[i])
    &&& encode_utf8(name).len() <= 32
}

/// Checks a user name before the user is stored.
pub fn validate_username(username: &str) -> (res: Result<(), RegisterError>)
    ensures
        res is Ok <==> username_is_valid(username@),
        res is Err ==> res == Err::<(), RegisterError>(RegisterError::InvalidUsername),
{
    let chars = chars_of(username);
    let mut i: usize = 0;
    while i < chars.len()
        invariant
            i <= chars.len(),
            chars@ == username@,
            forall|k: int| 0 <= k < i ==> #[trigger] alphanumeric(chars@[k]),
        decreases chars.len() - i,
    {
        if !is_alphanumeric(chars[i]) {
            return Err(RegisterError::InvalidUsername);
        }
        i = i + 1;
    }
    if username.as_bytes().len() > 32 {
        return Err(RegisterError::InvalidUsername);
    }
    Ok(())
}

} // verus!
