//! The journal of credit changes: reading it and redeeming tokens.
use vstd::prelude::*;

verus! {

/// How many journal entries are shown when the client names no limit:
/// twice `u16::MAX`.
pub const DEFAULT_JOURNAL_LIMIT: i64 = 131070;

/// The window of journal entries a user asks for: `(limit, offset)`, by
/// default the first `DEFAULT_JOURNAL_LIMIT` entries.
pub fn journal_window(offset: Option<i64>, limit: Option<i64>) -> (res: (i64, i64))
    ensures
        res.0 == match limit {
            Some(l) => l,
            None => DEFAULT_JOURNAL_LIMIT,
        },
        res.1 == match offset {
            Some(o) => o,
            None => 0,
        },
{
    let limit = match limit {
        Some(l) => l,
        None => DEFAULT_JOURNAL_LIMIT,
    };
    let offset = match offset {
        Some(o) => o,
        None => 0,
    };
    (limit, offset)
}

/// What redeeming a credit token comes to.
#[derive(Debug, Clone, Copy, PartialEq, Eq, Structural)]
pub enum TokenOutcome {
    /// 401: there is no such token.
    Unauthorized,
    /// 472: the token was used before.
    AlreadyConsumed,
    /// 204: the token's value is credited and the token used up.
    Consume,
}

impl TokenOutcome {
    /// The HTTP status code of the outcome.
    pub fn code(&self) -> (res: u16)
        ensures
            res == match self {
                TokenOutcome::Unauthorized => 401u16,
                TokenOutcome::AlreadyConsumed => 472u16,
                TokenOutcome::Consume => 204u16,
            },
    {
        match self {
            TokenOutcome::Unauthorized => 401,
            TokenOutcome::AlreadyConsumed => 472,
            TokenOutcome::Consume => 204,
        }
    }
}

/// Decides a token redemption: `used` is `None` when no token has the given
/// content, otherwise whether the token was used before.
pub fn post_to_journal_with_token(used: Option<bool>) -> (res: TokenOutcome)
    ensures
        used is None ==> res == TokenOutcome::Unauthorized,
        used == Some(true) ==> res == TokenOutcome::AlreadyConsumed,
        used == Some(false) ==> res == TokenOutcome::Consume,
{
    match used {
        None => TokenOutcome::Unauthorized,
        Some(true) => TokenOutcome::AlreadyConsumed,
        Some(false) => TokenOutcome::Consume,
    }
}

} // verus!
