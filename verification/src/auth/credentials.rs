//! Username and password as they arrive, and the rules they must meet before
//! anything is stored or hashed.

use vstd::prelude::*;
use vstd::string::*;
use vstd::utf8::is_ascii_chars;

verus! {

/// Shortest password that is accepted, in characters.
pub const MIN_PASSWORD_LENGTH: usize = 8;

/// Longest password that is accepted, in characters.
pub const MAX_PASSWORD_LENGTH: usize = 256;

/// A username with its password, as plain text. It lives for one request and is
/// never stored.
#[derive(Debug, PartialEq, Eq)]
pub struct Credentials {
    pub username: String,
    pub password: String,
}

/// What a [`Credentials`] value holds, as sequences of characters.
pub struct CredentialsView {
    pub username: Seq<char>,
    pub password: Seq<char>,
}

impl View for Credentials {
    type V = CredentialsView;

    open spec fn view(&self) -> CredentialsView {
        CredentialsView { username: self.username@, password: self.password@ }
    }
}

/// Why a pair of username and password was turned down.
#[derive(Debug, Clone, Copy, PartialEq, Eq, Structural)]
pub enum CredentialsVerifyError {
    BadPasswordLength,
    InvalidCharacter,
}

impl CredentialsVerifyError {
    /// The error in words.
    pub open spec fn text(self) -> Seq<char> {
        match self {
            CredentialsVerifyError::BadPasswordLength => "Password length not match the requirement: only length in the range 8-256 is acceptable"@,
            CredentialsVerifyError::InvalidCharacter => "Invalid character"@,
        }
    }

    /// Says in words which rule was broken.
    pub fn to_string(&self) -> (line: String)
        ensures
            line@ == self.text(),
    {
        match self {
            CredentialsVerifyError::BadPasswordLength => {
                "Password length not match the requirement: only length in the range 8-256 is acceptable".to_owned()
            },
            CredentialsVerifyError::InvalidCharacter => "Invalid character".to_owned(),
        }
    }
}

impl CredentialsView {
    /// Both fields are ASCII and the password has between 8 and 256 characters.
    pub open spec fn well_formed(self) -> bool {
        &&& is_ascii_chars(self.username)
        &&& is_ascii_chars(self.password)
        &&& MIN_PASSWORD_LENGTH <= self.password.len() <= MAX_PASSWORD_LENGTH
    }
}

/// The verdict on a username and a password: the character rule is applied
/// first, to both fields, and the length rule after it.
pub open spec fn parse_verdict(username: Seq<char>, password: Seq<char>) -> Result<
    CredentialsView,
    CredentialsVerifyError,
> {
    if !is_ascii_chars(username) || !is_ascii_chars(password) {
        Err(CredentialsVerifyError::InvalidCharacter)
    } else if password.len() < MIN_PASSWORD_LENGTH || password.len() > MAX_PASSWORD_LENGTH {
        Err(CredentialsVerifyError::BadPasswordLength)
    } else {
        Ok(CredentialsView { username, password })
    }
}

/// A character outside ASCII in either field is reported as such, whatever
/// else holds of the two fields.
pub proof fn lemma_foreign_character_is_reported(username: Seq<char>, password: Seq<char>)
    requires
        !is_ascii_chars(username) || !is_ascii_chars(password),
    ensures
        parse_verdict(username, password) == Err::<CredentialsView, CredentialsVerifyError>(
            CredentialsVerifyError::InvalidCharacter,
        ),
{
}

/// Of two ASCII fields, a password shorter than 8 or longer than 256 characters
/// is reported as such, whatever the username.
pub proof fn lemma_bad_length_is_reported(username: Seq<char>, password: Seq<char>)
    requires
        is_ascii_chars(username),
        is_ascii_chars(password),
        password.len() < 8 || password.len() > 256,
    ensures
        parse_verdict(username, password) == Err::<CredentialsView, CredentialsVerifyError>(
            CredentialsVerifyError::BadPasswordLength,
        ),
{
}

/// What is accepted is well formed, and what is well formed is accepted as it
/// is.
pub proof fn lemma_accepted_is_well_formed(username: Seq<char>, password: Seq<char>)
    ensures
        parse_verdict(username, password) is Ok <==> (CredentialsView {
            username,
            password,
        }).well_formed(),
        parse_verdict(username, password) is Ok ==> parse_verdict(username, password)->Ok_0 == (
        CredentialsView { username, password }),
{
}

impl Credentials {
    /// Checks a username and a password and keeps them if both pass.
    ///
    /// A character outside ASCII in either field is reported as
    /// `InvalidCharacter`, whatever the lengths are. Of two ASCII fields, a
    /// password shorter than 8 or longer than 256 characters is reported as
    /// `BadPasswordLength`. Nothing else is asked of the username.
    pub fn parse(username: String, password: String) -> (r: Result<
        Credentials,
        CredentialsVerifyError,
    >)
        ensures
            match r {
                Ok(c) => parse_verdict(username@, password@) == Ok::<
                    CredentialsView,
                    CredentialsVerifyError,
                >(c@) && c.username == username && c.password == password,
                Err(e) => parse_verdict(username@, password@) == Err::<
                    CredentialsView,
                    CredentialsVerifyError,
                >(e),
            },
            !is_ascii_chars(username@) || !is_ascii_chars(password@) ==> r == Err::<
                Credentials,
                CredentialsVerifyError,
            >(CredentialsVerifyError::InvalidCharacter),
            is_ascii_chars(username@) && is_ascii_chars(password@) && (password@.len() < 8
                || password@.len() > 256) ==> r == Err::<Credentials, CredentialsVerifyError>(
                CredentialsVerifyError::BadPasswordLength,
            ),
            r is Ok ==> r->Ok_0@.well_formed(),
    {
        if !username.is_ascii() || !password.is_ascii() {
            return Err(CredentialsVerifyError::InvalidCharacter);
        }
        let text = password.as_str();
        proof {
            is_ascii_spec_bytes(text);
        }
        let password_length = text.as_bytes().len();
        if password_length < MIN_PASSWORD_LENGTH || password_length > MAX_PASSWORD_LENGTH {
            return Err(CredentialsVerifyError::BadPasswordLength);
        }
        Ok(Credentials { username, password })
    }
}

} // verus!
