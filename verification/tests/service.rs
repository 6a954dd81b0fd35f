use astaprint::journal::{journal_window, post_to_journal_with_token, TokenOutcome, DEFAULT_JOURNAL_LIMIT};
use astaprint::manager::ManagerToken;
use astaprint::register::{validate_username, RegisterError, RegisterResponse};

#[test]
fn usernames() {
    assert_eq!(validate_username("alice42"), Ok(()));
    assert_eq!(validate_username("Jörg"), Ok(()));
    assert_eq!(validate_username("al ice"), Err(RegisterError::InvalidUsername));
    assert_eq!(validate_username("a-b"), Err(RegisterError::InvalidUsername));
    assert_eq!(validate_username(&"x".repeat(32)), Ok(()));
    assert_eq!(validate_username(&"x".repeat(33)), Err(RegisterError::InvalidUsername));
    assert_eq!(validate_username(&"ö".repeat(17)), Err(RegisterError::InvalidUsername));
    assert_eq!(validate_username(""), Ok(()));
}

#[test]
fn register_status() {
    assert_eq!(RegisterResponse(RegisterError::UsernameTaken).status(), (470, "Username Taken"));
    assert_eq!(RegisterResponse(RegisterError::InvalidUsername).status(), (471, "Invalid Username"));
}

#[test]
fn journal_requests() {
    assert_eq!(journal_window(None, None), (131070, 0));
    assert_eq!(DEFAULT_JOURNAL_LIMIT, i64::from(u16::MAX) * 2);
    assert_eq!(journal_window(Some(5), Some(10)), (10, 5));
    assert_eq!(post_to_journal_with_token(None), TokenOutcome::Unauthorized);
    assert_eq!(post_to_journal_with_token(Some(true)), TokenOutcome::AlreadyConsumed);
    assert_eq!(post_to_journal_with_token(Some(false)), TokenOutcome::Consume);
    assert_eq!(TokenOutcome::Unauthorized.code(), 401);
    assert_eq!(TokenOutcome::AlreadyConsumed.code(), 472);
    assert_eq!(TokenOutcome::Consume.code(), 204);
    let t = ManagerToken { id: 1, user_id: 2, user_agent: String::new(), ip: String::new(), location: String::new(), hash: vec![], salt: vec![] };
    assert_eq!(t.user_id, 2);
}
