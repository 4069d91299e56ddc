//! The account model of the surrounding service: validated user identifiers
//! and usernames.
//!
//! A user identifier may hold ASCII alphanumerics only; a username may also
//! hold `-` and `_`, and at most [`MAX_USERNAME_LENGTH`] characters. The
//! character check comes first, so the length bound is only ever applied to
//! all-ASCII text.

use vstd::prelude::*;
use vstd::string::StrSliceExecFns;

verus! {

/// The longest accepted username, in characters.
pub const MAX_USERNAME_LENGTH: usize = 40;

/// A rejected piece of user input, naming the offending field and a reason.
#[derive(Clone, Debug, PartialEq, Eq)]
pub enum ServerError {
    UserInputError { field: String, reason: String },
}

/// Whether `e` rejects the field `field` with the reason `reason`.
pub open spec fn is_user_input_error(e: ServerError, field: Seq<char>, reason: Seq<char>) -> bool {
    &&& e matches ServerError::UserInputError { field: f, reason: r }
    &&& f@ == field
    &&& r@ == reason
}

/// Whether `c` may stand in a user identifier: an ASCII alphanumeric.
pub open spec fn spec_valid_uid_char(c: char) -> bool {
    ||| 48 <= c as u32 <= 57
    ||| 65 <= c as u32 <= 90
    ||| 97 <= c as u32 <= 122
}

/// Whether `c` may stand in a username: an ASCII alphanumeric, `-` or `_`.
pub open spec fn spec_valid_username_char(c: char) -> bool {
    spec_valid_uid_char(c) || c == '-' || c == '_'
}

/// Whether every character of `s` may stand in a user identifier.
pub open spec fn uid_chars_ok(s: Seq<char>) -> bool {
    forall|i: int| 0 <= i < s.len() ==> spec_valid_uid_char(#[trigger] s[i])
}

/// Whether every character of `s` may stand in a username.
pub open spec fn username_chars_ok(s: Seq<char>) -> bool {
    forall|i: int| 0 <= i < s.len() ==> spec_valid_username_char(#[trigger] s[i])
}

/// The reason text reported for a username with invalid characters, which
/// quotes the username.
pub uninterp spec fn username_chars_reason(s: Seq<char>) -> Seq<char>;

/// The reason text for a username with invalid characters.
///
/// Relies on `format!` with std's `Debug` for `str`: the text is a fixed
/// message followed by the quoted, escaped username, and depends on the
/// username's characters alone.
#[verifier::external_body]
fn format_username_chars_reason(username: &str) -> (r: String)
    ensures
        r@ == username_chars_reason(username@),
{
    format!("invalid username characters: {:?}", username)
}

/// Whether `c` may stand in a user identifier.
pub fn valid_uid_char(c: char) -> (b: bool)
    ensures
        b == spec_valid_uid_char(c),
{
    let u = c as u32;
    (48 <= u && u <= 57) || (65 <= u && u <= 90) || (97 <= u && u <= 122)
}

/// Whether `c` may stand in a username.
pub fn valid_username_char(c: char) -> (b: bool)
    ensures
        b == spec_valid_username_char(c),
{
    valid_uid_char(c) || c == '-' || c == '_'
}

/// Accepts a user identifier made of ASCII alphanumerics alone; rejects any
/// other identifier under the field `uid`.
pub fn validate_uid(uid: &str) -> (r: Result<(), ServerError>)
    ensures
        uid_chars_ok(uid@) ==> r == Ok::<(), ServerError>(()),
        !uid_chars_ok(uid@) ==> (r matches Err(e) && is_user_input_error(
            e,
            "uid"@,
            "invalid characters"@,
        )),
{
    let n = uid.unicode_len();
    let mut i: usize = 0;
    while i < n
        invariant
            n == uid@.len(),
            0 <= i <= n,
            forall|k: int| 0 <= k < i ==> spec_valid_uid_char(#[trigger] uid@[k]),
        decreases n - i,
    {
        if !valid_uid_char(uid.get_char(i)) {
            return Err(
                ServerError::UserInputError {
                    field: "uid".to_owned(),
                    reason: "invalid characters".to_owned(),
                },
            );
        }
        i += 1;
    }
    Ok(())
}

/// Accepts a username made of ASCII alphanumerics, `-` and `_`, of at most
/// [`MAX_USERNAME_LENGTH`] characters; rejects any other under the field
/// `username`, naming the characters before the length.
pub fn validate_username(username: &str) -> (r: Result<(), ServerError>)
    ensures
        username_chars_ok(username@) && username@.len() <= MAX_USERNAME_LENGTH ==> r == Ok::<
            (),
            ServerError,
        >(()),
        !username_chars_ok(username@) ==> (r matches Err(e) && is_user_input_error(
            e,
            "username"@,
            username_chars_reason(username@),
        )),
        username_chars_ok(username@) && username@.len() > MAX_USERNAME_LENGTH ==> (r matches Err(e)
            && is_user_input_error(e, "username"@, "username must be <= 40 chars"@)),
{
    let n = username.unicode_len();
    let mut i: usize = 0;
    while i < n
        invariant
            n == username@.len(),
            0 <= i <= n,
            forall|k: int| 0 <= k < i ==> spec_valid_username_char(#[trigger] username@[k]),
        decreases n - i,
    {
        if !valid_username_char(username.get_char(i)) {
            let reason = format_username_chars_reason(username);
            return Err(ServerError::UserInputError { field: "username".to_owned(), reason });
        }
        i += 1;
    }
    if n > MAX_USERNAME_LENGTH {
        return Err(
            ServerError::UserInputError {
                field: "username".to_owned(),
                reason: "username must be <= 40 chars".to_owned(),
            },
        );
    }
    Ok(())
}

/// A registered account: a validated identifier, a validated display name,
/// and whether the account is a guest.
#[derive(Debug)]
pub struct User {
    uid: String,
    username: String,
    pub is_guest: bool,
}

/// The request body for creating a user: the chosen display name.
#[derive(Debug)]
pub struct NewUserBody {
    pub username: String,
}

impl User {
    /// The account's identifier.
    pub closed spec fn spec_uid(&self) -> Seq<char> {
        self.uid@
    }

    /// The account's display name.
    pub closed spec fn spec_username(&self) -> Seq<char> {
        self.username@
    }

    /// Whether the account is a guest.
    pub closed spec fn spec_is_guest(&self) -> bool {
        self.is_guest
    }

    /// Builds an account from its parts, validating the identifier first
    /// and the username second; a rejection is returned unchanged.
    pub fn new(uid: &str, username: &str, is_guest: bool) -> (r: Result<User, ServerError>)
        ensures
            uid_chars_ok(uid@) && username_chars_ok(username@) && username@.len()
                <= MAX_USERNAME_LENGTH ==> (r matches Ok(u) && u.spec_uid() == uid@
                && u.spec_username() == username@ && u.spec_is_guest() == is_guest),
            !uid_chars_ok(uid@) ==> (r matches Err(e) && is_user_input_error(
                e,
                "uid"@,
                "invalid characters"@,
            )),
            uid_chars_ok(uid@) && !username_chars_ok(username@) ==> (r matches Err(e)
                && is_user_input_error(e, "username"@, username_chars_reason(username@))),
            uid_chars_ok(uid@) && username_chars_ok(username@) && username@.len()
                > MAX_USERNAME_LENGTH ==> (r matches Err(e) && is_user_input_error(
                e,
                "username"@,
                "username must be <= 40 chars"@,
            )),
    {
        match validate_uid(uid) {
            Ok(_) => {},
            Err(e) => {
                return Err(e);
            },
        }
        match validate_username(username) {
            Ok(_) => {},
            Err(e) => {
                return Err(e);
            },
        }
        Ok(User { uid: uid.to_owned(), username: username.to_owned(), is_guest })
    }

    /// The account's identifier.
    pub fn uid(&self) -> (r: &String)
        ensures
            r@ == self.spec_uid(),
    {
        &self.uid
    }

    /// The account's display name.
    pub fn username(&self) -> (r: &String)
        ensures
            r@ == self.spec_username(),
    {
        &self.username
    }
}

} // verus!
