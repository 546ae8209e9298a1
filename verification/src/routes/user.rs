//! Registration and login, as steps.
//!
//! Neither talks to a database, hashes on the spot or reads a clock. A step
//! says what has to be done next: look a username up, hash a password, insert
//! an account, issue a token. The caller does it, off the request path where
//! that matters, and hands back what came of it as an event. The rules stand
//! here: what is checked in which order, and which failure becomes which error.

use vstd::prelude::*;
use vstd::string::*;

use crate::auth::credentials::parse_verdict;
use crate::auth::credentials::Credentials;
use crate::auth::credentials::CredentialsVerifyError;
use crate::auth::credentials::CredentialsView;
use crate::auth::password::digest_verdict;
use crate::auth::password::password_check;
use crate::auth::password::verify_password;
use crate::auth::password::DigestError;
use crate::error::error_json;
use crate::error::response_error;
use crate::error::unknown_error_line;
use crate::error::unknown_error_text;
use crate::error::ErrorResponse;
use crate::error::Fault;
use crate::error::BAD_REQUEST;
use crate::error::INTERNAL_SERVER_ERROR;
use crate::error::OK;
use crate::error::UNAUTHORIZED;

verus! {

/// The body of a request to register.
#[derive(Debug, PartialEq, Eq)]
pub struct RegisterModel {
    pub username: String,
    pub password: String,
}

/// The body of a request to log in.
#[derive(Debug, PartialEq, Eq)]
pub struct LoginModel {
    pub username: String,
    pub password: String,
}

/// Why a registration failed.
#[derive(Debug, Clone, Copy, PartialEq, Eq, Structural)]
pub enum RegisterError {
    UsernameExists,
    CredentialsError(CredentialsVerifyError),
    UnknownError(Fault),
}

/// Why a login failed.
#[derive(Debug, Clone, Copy, PartialEq, Eq, Structural)]
pub enum LoginError {
    BadCredentials,
    UnknownError(Fault),
}

/// What the store answered when asked whether a username is taken.
#[derive(Debug, Clone, Copy, PartialEq, Eq, Structural)]
pub enum UsernameLookup {
    Absent,
    Found,
    Failed,
}

/// What came of hashing a password off the request path.
#[derive(Debug, PartialEq, Eq)]
pub enum HashOutcome {
    Hashed(String),
    /// The task that was to hash could not be run or did not finish.
    TaskFailed,
    /// The hasher reported an error.
    HashFailed,
}

/// What the store answered to the insertion of an account.
#[derive(Debug, Clone, Copy, PartialEq, Eq, Structural)]
pub enum InsertOutcome {
    /// The account is stored under this id.
    Created(i64),
    /// The store refused the row because the username is taken.
    Duplicate,
    Failed,
}

/// What the store answered when asked for the account of a username.
#[derive(Debug, PartialEq, Eq)]
pub enum AccountLookup {
    Absent,
    Found { user_id: i64, password_digest: String },
    Failed,
}

/// A registration in progress: what is to be done next, with what it needs, or
/// how it ended.
#[derive(Debug, PartialEq, Eq)]
pub enum RegisterStep {
    /// Ask the store whether `credentials.username` is taken: whether an
    /// account has this username to the letter. Case counts, and no character
    /// stands for another.
    FindUsername { credentials: Credentials },
    /// Hash `credentials.password`, away from the threads that take requests.
    HashPassword { credentials: Credentials },
    /// Insert the account as one row. The store admits one account for a
    /// username; its answer to this is what decides, not the lookup before.
    InsertAccount { username: String, password_digest: String },
    /// Issue a token to the new account.
    IssueToken { user_id: i64 },
    /// The token of the new account, or why there is none.
    Done(Result<String, RegisterError>),
}

/// The answer to what a [`RegisterStep`] asked for.
#[derive(Debug, PartialEq, Eq)]
pub enum RegisterEvent {
    UsernameLookup(UsernameLookup),
    PasswordHashed(HashOutcome),
    AccountInserted(InsertOutcome),
    /// The token, or `None` where none could be issued.
    TokenIssued(Option<String>),
}

/// A login in progress.
#[derive(Debug, PartialEq, Eq)]
pub enum LoginStep {
    /// Ask the store for the account of exactly `credentials.username`.
    FindAccount { credentials: Credentials },
    /// Issue a token to the account.
    IssueToken { user_id: i64 },
    /// The token, or why there is none.
    Done(Result<String, LoginError>),
}

/// The answer to what a [`LoginStep`] asked for.
#[derive(Debug, PartialEq, Eq)]
pub enum LoginEvent {
    AccountLookup(AccountLookup),
    /// The token, or `None` where none could be issued.
    TokenIssued(Option<String>),
}

/// [`HashOutcome`] over sequences of characters.
pub enum HashOutcomeView {
    Hashed(Seq<char>),
    TaskFailed,
    HashFailed,
}

/// [`AccountLookup`] over sequences of characters.
pub enum AccountLookupView {
    Absent,
    Found { user_id: i64, password_digest: Seq<char> },
    Failed,
}

/// [`RegisterStep`] over sequences of characters.
pub enum RegisterStepView {
    FindUsername { credentials: CredentialsView },
    HashPassword { credentials: CredentialsView },
    InsertAccount { username: Seq<char>, password_digest: Seq<char> },
    IssueToken { user_id: i64 },
    Done(Result<Seq<char>, RegisterError>),
}

/// [`RegisterEvent`] over sequences of characters.
pub enum RegisterEventView {
    UsernameLookup(UsernameLookup),
    PasswordHashed(HashOutcomeView),
    AccountInserted(InsertOutcome),
    TokenIssued(Option<Seq<char>>),
}

/// [`LoginStep`] over sequences of characters.
pub enum LoginStepView {
    FindAccount { credentials: CredentialsView },
    IssueToken { user_id: i64 },
    Done(Result<Seq<char>, LoginError>),
}

/// [`LoginEvent`] over sequences of characters.
pub enum LoginEventView {
    AccountLookup(AccountLookupView),
    TokenIssued(Option<Seq<char>>),
}

/// A token that may be there, as a sequence of characters.
pub open spec fn token_view(token: Option<String>) -> Option<Seq<char>> {
    match token {
        Some(text) => Some(text@),
        None => None,
    }
}

impl View for HashOutcome {
    type V = HashOutcomeView;

    open spec fn view(&self) -> HashOutcomeView {
        match *self {
            HashOutcome::Hashed(digest) => HashOutcomeView::Hashed(digest@),
            HashOutcome::TaskFailed => HashOutcomeView::TaskFailed,
            HashOutcome::HashFailed => HashOutcomeView::HashFailed,
        }
    }
}

impl View for AccountLookup {
    type V = AccountLookupView;

    open spec fn view(&self) -> AccountLookupView {
        match *self {
            AccountLookup::Absent => AccountLookupView::Absent,
            AccountLookup::Found { user_id, password_digest } => AccountLookupView::Found {
                user_id,
                password_digest: password_digest@,
            },
            AccountLookup::Failed => AccountLookupView::Failed,
        }
    }
}

impl View for RegisterStep {
    type V = RegisterStepView;

    open spec fn view(&self) -> RegisterStepView {
        match *self {
            RegisterStep::FindUsername { credentials } => RegisterStepView::FindUsername {
                credentials: credentials@,
            },
            RegisterStep::HashPassword { credentials } => RegisterStepView::HashPassword {
                credentials: credentials@,
            },
            RegisterStep::InsertAccount {
                username,
                password_digest,
            } => RegisterStepView::InsertAccount {
                username: username@,
                password_digest: password_digest@,
            },
            RegisterStep::IssueToken { user_id } => RegisterStepView::IssueToken { user_id },
            RegisterStep::Done(Ok(token)) => RegisterStepView::Done(Ok(token@)),
            RegisterStep::Done(Err(error)) => RegisterStepView::Done(Err(error)),
        }
    }
}

impl View for RegisterEvent {
    type V = RegisterEventView;

    open spec fn view(&self) -> RegisterEventView {
        match *self {
            RegisterEvent::UsernameLookup(found) => RegisterEventView::UsernameLookup(found),
            RegisterEvent::PasswordHashed(hashed) => RegisterEventView::PasswordHashed(hashed@),
            RegisterEvent::AccountInserted(inserted) => RegisterEventView::AccountInserted(
                inserted,
            ),
            RegisterEvent::TokenIssued(token) => RegisterEventView::TokenIssued(token_view(token)),
        }
    }
}

impl View for LoginStep {
    type V = LoginStepView;

    open spec fn view(&self) -> LoginStepView {
        match *self {
            LoginStep::FindAccount { credentials } => LoginStepView::FindAccount {
                credentials: credentials@,
            },
            LoginStep::IssueToken { user_id } => LoginStepView::IssueToken { user_id },
            LoginStep::Done(Ok(token)) => LoginStepView::Done(Ok(token@)),
            LoginStep::Done(Err(error)) => LoginStepView::Done(Err(error)),
        }
    }
}

impl View for LoginEvent {
    type V = LoginEventView;

    open spec fn view(&self) -> LoginEventView {
        match *self {
            LoginEvent::AccountLookup(found) => LoginEventView::AccountLookup(found@),
            LoginEvent::TokenIssued(token) => LoginEventView::TokenIssued(token_view(token)),
        }
    }
}

impl RegisterError {
    /// The status that the caller sees: 400 for what the caller can mend, 500
    /// for the rest.
    pub open spec fn status(self) -> u16 {
        match self {
            RegisterError::UnknownError(_) => INTERNAL_SERVER_ERROR,
            RegisterError::UsernameExists => BAD_REQUEST,
            RegisterError::CredentialsError(_) => BAD_REQUEST,
        }
    }

    /// The message that the caller sees.
    pub open spec fn text(self) -> Seq<char> {
        match self {
            RegisterError::UnknownError(_) => "Unknown error"@,
            RegisterError::UsernameExists => "Username was taken"@,
            RegisterError::CredentialsError(CredentialsVerifyError::BadPasswordLength) => "Password length not match the requirement: only length in the range 8-256 is acceptable"@,
            RegisterError::CredentialsError(CredentialsVerifyError::InvalidCharacter) => "Invalid characters found in username or password"@,
        }
    }

    /// The line for the log.
    pub open spec fn log_text(self) -> Seq<char> {
        match self {
            RegisterError::UsernameExists => "Username was taken"@,
            RegisterError::CredentialsError(_) => "Credentials error"@,
            RegisterError::UnknownError(fault) => unknown_error_text(fault),
        }
    }

    /// The HTTP status of the failure.
    pub fn status_code(&self) -> (code: u16)
        ensures
            code == self.status(),
    {
        match self {
            RegisterError::UnknownError(_) => INTERNAL_SERVER_ERROR,
            RegisterError::UsernameExists => BAD_REQUEST,
            RegisterError::CredentialsError(credentials_error) => match credentials_error {
                CredentialsVerifyError::BadPasswordLength
                | CredentialsVerifyError::InvalidCharacter => BAD_REQUEST,
            },
        }
    }

    /// The message for the caller. What went wrong on the server's side is not
    /// among it.
    pub fn message(&self) -> (msg: &'static str)
        ensures
            msg@ == self.text(),
    {
        match self {
            RegisterError::UnknownError(_) => "Unknown error",
            RegisterError::UsernameExists => "Username was taken",
            RegisterError::CredentialsError(credentials_error) => match credentials_error {
                CredentialsVerifyError::BadPasswordLength => {
                    "Password length not match the requirement: only length in the range 8-256 is acceptable"
                },
                CredentialsVerifyError::InvalidCharacter => {
                    "Invalid characters found in username or password"
                },
            },
        }
    }

    /// The failure as it goes out.
    pub fn error_response(&self) -> (response: ErrorResponse)
        ensures
            response.status == self.status(),
            response.body@ == error_json(self.text()),
    {
        response_error(self.status_code(), self.message())
    }

    /// The failure as a line for the log.
    pub fn to_string(&self) -> (line: String)
        ensures
            line@ == self.log_text(),
    {
        match self {
            RegisterError::UsernameExists => "Username was taken".to_owned(),
            RegisterError::CredentialsError(_) => "Credentials error".to_owned(),
            RegisterError::UnknownError(fault) => unknown_error_line(*fault),
        }
    }
}

impl LoginError {
    /// The status that the caller sees.
    pub open spec fn status(self) -> u16 {
        match self {
            LoginError::BadCredentials => UNAUTHORIZED,
            LoginError::UnknownError(_) => INTERNAL_SERVER_ERROR,
        }
    }

    /// The message that the caller sees.
    pub open spec fn text(self) -> Seq<char> {
        match self {
            LoginError::BadCredentials => "Bad credentials"@,
            LoginError::UnknownError(_) => "Internal Server Error"@,
        }
    }

    /// The line for the log.
    pub open spec fn log_text(self) -> Seq<char> {
        match self {
            LoginError::BadCredentials => "Bad credentials"@,
            LoginError::UnknownError(fault) => unknown_error_text(fault),
        }
    }

    /// The HTTP status of the failure.
    pub fn status_code(&self) -> (code: u16)
        ensures
            code == self.status(),
    {
        match self {
            LoginError::BadCredentials => UNAUTHORIZED,
            LoginError::UnknownError(_) => INTERNAL_SERVER_ERROR,
        }
    }

    /// The message for the caller: the same for an unknown username and for a
    /// wrong password.
    pub fn message(&self) -> (msg: &'static str)
        ensures
            msg@ == self.text(),
    {
        match self {
            LoginError::BadCredentials => "Bad credentials",
            LoginError::UnknownError(_) => "Internal Server Error",
        }
    }

    /// The failure as it goes out.
    pub fn error_response(&self) -> (response: ErrorResponse)
        ensures
            response.status == self.status(),
            response.body@ == error_json(self.text()),
    {
        response_error(self.status_code(), self.message())
    }

    /// The failure as a line for the log.
    pub fn to_string(&self) -> (line: String)
        ensures
            line@ == self.log_text(),
    {
        match self {
            LoginError::BadCredentials => "Bad credentials".to_owned(),
            LoginError::UnknownError(fault) => unknown_error_line(*fault),
        }
    }
}

impl RegisterStepView {
    /// The status of the response, once the registration has ended: 200 with
    /// the token, or the error's.
    pub open spec fn status(self) -> Option<u16> {
        match self {
            RegisterStepView::Done(Ok(_)) => Some(OK),
            RegisterStepView::Done(Err(error)) => Some(error.status()),
            _ => None,
        }
    }
}

impl LoginStepView {
    /// The status of the response, once the login has ended: 200 with the
    /// token, or the error's.
    pub open spec fn status(self) -> Option<u16> {
        match self {
            LoginStepView::Done(Ok(_)) => Some(OK),
            LoginStepView::Done(Err(error)) => Some(error.status()),
            _ => None,
        }
    }
}

impl RegisterStep {
    /// The status of the response: there is one when the registration has
    /// ended, and none before.
    pub fn response_status(&self) -> (status: Option<u16>)
        ensures
            status == self@.status(),
            status is Some <==> self@ is Done,
    {
        match self {
            RegisterStep::Done(Ok(_)) => Some(OK),
            RegisterStep::Done(Err(error)) => Some(error.status_code()),
            _ => None,
        }
    }
}

impl LoginStep {
    /// The status of the response: there is one when the login has ended, and
    /// none before.
    pub fn response_status(&self) -> (status: Option<u16>)
        ensures
            status == self@.status(),
            status is Some <==> self@ is Done,
    {
        match self {
            LoginStep::Done(Ok(_)) => Some(OK),
            LoginStep::Done(Err(error)) => Some(error.status_code()),
            _ => None,
        }
    }
}

/// How a registration starts: with the credentials checked.
pub open spec fn register_start(username: Seq<char>, password: Seq<char>) -> RegisterStepView {
    match parse_verdict(username, password) {
        Ok(credentials) => RegisterStepView::FindUsername { credentials },
        Err(error) => RegisterStepView::Done(Err(RegisterError::CredentialsError(error))),
    }
}

/// How a registration goes on from a step when an event arrives.
///
/// A taken username ends it, whether the lookup finds it or the insertion is
/// refused for it. A failure of the store, the hasher or the signer ends it as
/// an unknown error that names the step. An event that the step did not ask for
/// ends it too. What has ended stays as it is.
pub open spec fn register_next(step: RegisterStepView, event: RegisterEventView) -> RegisterStepView {
    match (step, event) {
        (RegisterStepView::Done(result), _) => RegisterStepView::Done(result),
        (
            RegisterStepView::FindUsername { credentials },
            RegisterEventView::UsernameLookup(found),
        ) => match found {
            UsernameLookup::Absent => RegisterStepView::HashPassword { credentials },
            UsernameLookup::Found => RegisterStepView::Done(Err(RegisterError::UsernameExists)),
            UsernameLookup::Failed => RegisterStepView::Done(
                Err(RegisterError::UnknownError(Fault::FindUser)),
            ),
        },
        (
            RegisterStepView::HashPassword { credentials },
            RegisterEventView::PasswordHashed(hashed),
        ) => match hashed {
            HashOutcomeView::Hashed(digest) => RegisterStepView::InsertAccount {
                username: credentials.username,
                password_digest: digest,
            },
            HashOutcomeView::TaskFailed => RegisterStepView::Done(
                Err(RegisterError::UnknownError(Fault::SpawnHashTask)),
            ),
            HashOutcomeView::HashFailed => RegisterStepView::Done(
                Err(RegisterError::UnknownError(Fault::HashPassword)),
            ),
        },
        (
            RegisterStepView::InsertAccount { username, password_digest },
            RegisterEventView::AccountInserted(inserted),
        ) => match inserted {
            InsertOutcome::Created(user_id) => RegisterStepView::IssueToken { user_id },
            InsertOutcome::Duplicate => RegisterStepView::Done(Err(RegisterError::UsernameExists)),
            InsertOutcome::Failed => RegisterStepView::Done(
                Err(RegisterError::UnknownError(Fault::InsertUser)),
            ),
        },
        (RegisterStepView::IssueToken { user_id }, RegisterEventView::TokenIssued(token)) => match token {
            Some(text) => RegisterStepView::Done(Ok(text)),
            None => RegisterStepView::Done(Err(RegisterError::UnknownError(Fault::GenerateToken))),
        },
        _ => RegisterStepView::Done(Err(RegisterError::UnknownError(Fault::UnexpectedEvent))),
    }
}

/// Where a login stands once the password has been checked against the
/// account's digest.
pub open spec fn password_checked(user_id: i64, checked: Result<bool, DigestError>) -> LoginStepView {
    match checked {
        Ok(true) => LoginStepView::IssueToken { user_id },
        Ok(false) => LoginStepView::Done(Err(LoginError::BadCredentials)),
        Err(_) => LoginStepView::Done(Err(LoginError::UnknownError(Fault::VerifyPassword))),
    }
}

/// How a login goes on from a step when an event arrives.
///
/// An unknown username and a wrong password end it with the same error. A
/// digest that cannot be read at all is an unknown error, as is a failure of
/// the store or the signer.
pub open spec fn login_next(step: LoginStepView, event: LoginEventView) -> LoginStepView {
    match (step, event) {
        (LoginStepView::Done(result), _) => LoginStepView::Done(result),
        (
            LoginStepView::FindAccount { credentials },
            LoginEventView::AccountLookup(found),
        ) => match found {
            AccountLookupView::Absent => LoginStepView::Done(Err(LoginError::BadCredentials)),
            AccountLookupView::Found { user_id, password_digest } => password_checked(
                user_id,
                password_check(digest_verdict(credentials.password, password_digest)),
            ),
            AccountLookupView::Failed => LoginStepView::Done(
                Err(LoginError::UnknownError(Fault::QueryUser)),
            ),
        },
        (LoginStepView::IssueToken { user_id }, LoginEventView::TokenIssued(token)) => match token {
            Some(text) => LoginStepView::Done(Ok(text)),
            None => LoginStepView::Done(Err(LoginError::UnknownError(Fault::GenerateToken))),
        },
        _ => LoginStepView::Done(Err(LoginError::UnknownError(Fault::UnexpectedEvent))),
    }
}

/// Starts a registration: checks the credentials and, if they pass, asks for
/// the username to be looked up. Credentials that do not pass end it at once,
/// with the validator's own error.
pub fn register(payload: RegisterModel) -> (step: RegisterStep)
    ensures
        step@ == register_start(payload.username@, payload.password@),
{
    match Credentials::parse(payload.username, payload.password) {
        Ok(credentials) => RegisterStep::FindUsername { credentials },
        Err(error) => RegisterStep::Done(Err(RegisterError::CredentialsError(error))),
    }
}

/// Takes a registration one step further with the answer to what it asked for.
pub fn register_user(step: RegisterStep, event: RegisterEvent) -> (next: RegisterStep)
    ensures
        next@ == register_next(step@, event@),
{
    match step {
        RegisterStep::Done(result) => RegisterStep::Done(result),
        RegisterStep::FindUsername { credentials } => match event {
            RegisterEvent::UsernameLookup(UsernameLookup::Absent) => RegisterStep::HashPassword {
                credentials,
            },
            RegisterEvent::UsernameLookup(UsernameLookup::Found) => RegisterStep::Done(
                Err(RegisterError::UsernameExists),
            ),
            RegisterEvent::UsernameLookup(UsernameLookup::Failed) => RegisterStep::Done(
                Err(RegisterError::UnknownError(Fault::FindUser)),
            ),
            _ => RegisterStep::Done(Err(RegisterError::UnknownError(Fault::UnexpectedEvent))),
        },
        RegisterStep::HashPassword { credentials } => match event {
            RegisterEvent::PasswordHashed(HashOutcome::Hashed(digest)) => {
                RegisterStep::InsertAccount {
                    username: credentials.username,
                    password_digest: digest,
                }
            },
            RegisterEvent::PasswordHashed(HashOutcome::TaskFailed) => RegisterStep::Done(
                Err(RegisterError::UnknownError(Fault::SpawnHashTask)),
            ),
            RegisterEvent::PasswordHashed(HashOutcome::HashFailed) => RegisterStep::Done(
                Err(RegisterError::UnknownError(Fault::HashPassword)),
            ),
            _ => RegisterStep::Done(Err(RegisterError::UnknownError(Fault::UnexpectedEvent))),
        },
        RegisterStep::InsertAccount { username, password_digest } => match event {
            RegisterEvent::AccountInserted(InsertOutcome::Created(user_id)) => {
                RegisterStep::IssueToken { user_id }
            },
            RegisterEvent::AccountInserted(InsertOutcome::Duplicate) => RegisterStep::Done(
                Err(RegisterError::UsernameExists),
            ),
            RegisterEvent::AccountInserted(InsertOutcome::Failed) => RegisterStep::Done(
                Err(RegisterError::UnknownError(Fault::InsertUser)),
            ),
            _ => RegisterStep::Done(Err(RegisterError::UnknownError(Fault::UnexpectedEvent))),
        },
        RegisterStep::IssueToken { user_id } => match event {
            RegisterEvent::TokenIssued(Some(token)) => RegisterStep::Done(Ok(token)),
            RegisterEvent::TokenIssued(None) => RegisterStep::Done(
                Err(RegisterError::UnknownError(Fault::GenerateToken)),
            ),
            _ => RegisterStep::Done(Err(RegisterError::UnknownError(Fault::UnexpectedEvent))),
        },
    }
}

/// Starts a login: asks for the account of the username, as it was typed. The
/// credentials are not checked against the rules for new ones.
pub fn login(payload: LoginModel) -> (step: LoginStep)
    ensures
        step@ == (LoginStepView::FindAccount {
            credentials: CredentialsView {
                username: payload.username@,
                password: payload.password@,
            },
        }),
{
    LoginStep::FindAccount {
        credentials: Credentials { username: payload.username, password: payload.password },
    }
}

impl LoginStep {
    /// Where a login stands once the password has been checked: a match goes on
    /// to the token, a mismatch ends it as bad credentials, a digest that could
    /// not be read ends it as an unknown error.
    pub fn after_password_check(user_id: i64, checked: Result<bool, DigestError>) -> (next:
        LoginStep)
        ensures
            next@ == password_checked(user_id, checked),
    {
        match checked {
            Ok(true) => LoginStep::IssueToken { user_id },
            Ok(false) => LoginStep::Done(Err(LoginError::BadCredentials)),
            Err(_) => LoginStep::Done(Err(LoginError::UnknownError(Fault::VerifyPassword))),
        }
    }
}

/// Takes a login one step further with the answer to what it asked for. When
/// the account arrives, the password is checked against its digest here.
pub fn authorize_user(step: LoginStep, event: LoginEvent) -> (next: LoginStep)
    ensures
        next@ == login_next(step@, event@),
{
    match step {
        LoginStep::Done(result) => LoginStep::Done(result),
        LoginStep::FindAccount { credentials } => match event {
            LoginEvent::AccountLookup(AccountLookup::Absent) => LoginStep::Done(
                Err(LoginError::BadCredentials),
            ),
            LoginEvent::AccountLookup(AccountLookup::Found { user_id, password_digest }) => {
                let checked = verify_password(
                    credentials.password.as_str(),
                    password_digest.as_str(),
                );
                LoginStep::after_password_check(user_id, checked)
            },
            LoginEvent::AccountLookup(AccountLookup::Failed) => LoginStep::Done(
                Err(LoginError::UnknownError(Fault::QueryUser)),
            ),
            _ => LoginStep::Done(Err(LoginError::UnknownError(Fault::UnexpectedEvent))),
        },
        LoginStep::IssueToken { user_id } => match event {
            LoginEvent::TokenIssued(Some(token)) => LoginStep::Done(Ok(token)),
            LoginEvent::TokenIssued(None) => LoginStep::Done(
                Err(LoginError::UnknownError(Fault::GenerateToken)),
            ),
            _ => LoginStep::Done(Err(LoginError::UnknownError(Fault::UnexpectedEvent))),
        },
    }
}

} // verus!
