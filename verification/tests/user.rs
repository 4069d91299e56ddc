use hive_engine::user::{
    valid_uid_char, valid_username_char, validate_uid, validate_username, ServerError, User,
};

fn input_error(field: &str, reason: &str) -> ServerError {
    ServerError::UserInputError { field: field.to_string(), reason: reason.to_string() }
}

#[test]
fn uid_chars() {
    assert!(valid_uid_char('a'));
    assert!(valid_uid_char('Z'));
    assert!(valid_uid_char('0'));
    assert!(!valid_uid_char('-'));
    assert!(!valid_uid_char('_'));
    assert!(!valid_uid_char(' '));
}

#[test]
fn username_chars() {
    assert!(valid_username_char('a'));
    assert!(valid_username_char('-'));
    assert!(valid_username_char('_'));
    assert!(!valid_username_char(' '));
    assert!(!valid_username_char('!'));
}

#[test]
fn uids_validate() {
    assert_eq!(validate_uid("abc123XYZ"), Ok(()));
    assert_eq!(validate_uid(""), Ok(()));
    assert_eq!(validate_uid("abc-123"), Err(input_error("uid", "invalid characters")));
    assert_eq!(validate_uid("a b"), Err(input_error("uid", "invalid characters")));
}

#[test]
fn usernames_validate() {
    assert_eq!(validate_username("some_user-1"), Ok(()));
    let reason = format!("invalid username characters: {:?}", "bad name!");
    assert_eq!(validate_username("bad name!"), Err(input_error("username", &reason)));
}

#[test]
fn username_length_bound() {
    let at_limit = "a".repeat(40);
    assert_eq!(validate_username(&at_limit), Ok(()));
    let over = "a".repeat(41);
    assert_eq!(
        validate_username(&over),
        Err(input_error("username", "username must be <= 40 chars"))
    );
}

#[test]
fn character_check_comes_before_length() {
    // An over-long name with a bad character is rejected for the character.
    let long_bad = format!("{}!", "a".repeat(45));
    let reason = format!("invalid username characters: {:?}", long_bad);
    assert_eq!(validate_username(&long_bad), Err(input_error("username", &reason)));
}

#[test]
fn new_user_keeps_its_parts() {
    let user = User::new("uid123", "name_1", true).unwrap();
    assert_eq!(user.uid(), "uid123");
    assert_eq!(user.username(), "name_1");
    assert!(user.is_guest);
    let user = User::new("uid123", "name_1", false).unwrap();
    assert!(!user.is_guest);
}

#[test]
fn new_user_rejects_bad_uid_first() {
    // Both parts invalid: the uid rejection wins.
    assert_eq!(
        User::new("bad uid", "bad name!", false).unwrap_err(),
        input_error("uid", "invalid characters")
    );
}

#[test]
fn new_user_rejects_bad_username() {
    let reason = format!("invalid username characters: {:?}", "bad name!");
    assert_eq!(
        User::new("gooduid", "bad name!", false).unwrap_err(),
        input_error("username", &reason)
    );
}
