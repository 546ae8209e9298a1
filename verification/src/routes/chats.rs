//! Opening a private chat between two users, as steps.
//!
//! Between any two users there is at most one private chat. A request to open
//! one returns the chat that is there, or creates it. Two requests for the same
//! two users may run at the same time, on one server or on several; both can
//! miss the chat and both can try to create it. The store admits one row for an
//! unordered pair of users and refuses the second; the request that was refused
//! reads again and returns the chat that won.

use vstd::prelude::*;

use crate::auth::bearer::BearerAuth;
use crate::error::error_json;
use crate::error::response_error;
use crate::error::unknown_error_line;
use crate::error::unknown_error_text;
use crate::error::ErrorResponse;
use crate::error::Fault;
use crate::error::BAD_REQUEST;
use crate::error::CREATED;
use crate::error::INTERNAL_SERVER_ERROR;

verus! {

/// The body of a request to open a private chat.
#[derive(Debug, PartialEq, Eq)]
pub struct CreatePMModel {
    pub peer_username: String,
}

/// Why no private chat was opened.
#[derive(Debug, Clone, Copy, PartialEq, Eq, Structural)]
pub enum CreatePMError {
    PeerNotFound,
    UnknownError(Fault),
}

/// Two users without an order: the smaller id first. The store keys private
/// chats by it, so that a chat of A with B is the chat of B with A.
#[derive(Debug, Clone, Copy, PartialEq, Eq, Structural)]
pub struct ChatPair {
    pub low: i64,
    pub high: i64,
}

/// What the store answered when asked for the user of a username.
#[derive(Debug, Clone, Copy, PartialEq, Eq, Structural)]
pub enum PeerLookup {
    Absent,
    Found(i64),
    Failed,
}

/// What the store answered when asked for the private chat of a pair.
#[derive(Debug, Clone, Copy, PartialEq, Eq, Structural)]
pub enum ChatLookup {
    Absent,
    Found(i64),
    Failed,
}

/// What the store answered to the creation of a private chat: the chat row and
/// the two participant rows, written together or not at all.
#[derive(Debug, Clone, Copy, PartialEq, Eq, Structural)]
pub enum ChatInsert {
    /// The chat is stored under this id.
    Created(i64),
    /// The store refused the rows because the pair has a private chat.
    Conflict,
    Failed,
}

/// A request to open a private chat, in progress.
#[derive(Debug, PartialEq, Eq)]
pub enum CreatePMStep {
    /// Ask the store for the user named `peer_username`.
    FindPeer { user_id: i64, peer_username: String },
    /// Ask the store for the private chat of the pair.
    FindChat { pair: ChatPair },
    /// Create the private chat of the pair, as one unit.
    CreateChat { pair: ChatPair },
    /// Ask again for the private chat of the pair, after another request has
    /// created it first.
    RefetchChat { pair: ChatPair },
    /// The chat's id, or why there is none.
    Done(Result<i64, CreatePMError>),
}

/// The answer to what a [`CreatePMStep`] asked for.
#[derive(Debug, Clone, Copy, PartialEq, Eq, Structural)]
pub enum CreatePMEvent {
    PeerLookup(PeerLookup),
    ChatLookup(ChatLookup),
    ChatInserted(ChatInsert),
}

/// [`CreatePMStep`] over sequences of characters.
pub enum CreatePMStepView {
    FindPeer { user_id: i64, peer_username: Seq<char> },
    FindChat { pair: ChatPair },
    CreateChat { pair: ChatPair },
    RefetchChat { pair: ChatPair },
    Done(Result<i64, CreatePMError>),
}

impl View for CreatePMStep {
    type V = CreatePMStepView;

    open spec fn view(&self) -> CreatePMStepView {
        match *self {
            CreatePMStep::FindPeer { user_id, peer_username } => CreatePMStepView::FindPeer {
                user_id,
                peer_username: peer_username@,
            },
            CreatePMStep::FindChat { pair } => CreatePMStepView::FindChat { pair },
            CreatePMStep::CreateChat { pair } => CreatePMStepView::CreateChat { pair },
            CreatePMStep::RefetchChat { pair } => CreatePMStepView::RefetchChat { pair },
            CreatePMStep::Done(result) => CreatePMStepView::Done(result),
        }
    }
}

impl ChatPair {
    /// The pair of two users, whichever is named first.
    pub open spec fn of(first: i64, second: i64) -> ChatPair {
        if first <= second {
            ChatPair { low: first, high: second }
        } else {
            ChatPair { low: second, high: first }
        }
    }

    /// The smaller id stands first.
    pub open spec fn ordered(self) -> bool {
        self.low <= self.high
    }

    /// `user` is one of the two.
    pub open spec fn has(self, user: i64) -> bool {
        self.low == user || self.high == user
    }

    /// Puts two users in order.
    pub fn new(first: i64, second: i64) -> (pair: ChatPair)
        ensures
            pair == ChatPair::of(first, second),
            pair.ordered(),
            pair.has(first),
            pair.has(second),
    {
        if first <= second {
            ChatPair { low: first, high: second }
        } else {
            ChatPair { low: second, high: first }
        }
    }
}

impl CreatePMError {
    /// The status that the caller sees.
    pub open spec fn status(self) -> u16 {
        match self {
            CreatePMError::UnknownError(_) => INTERNAL_SERVER_ERROR,
            CreatePMError::PeerNotFound => BAD_REQUEST,
        }
    }

    /// The message that the caller sees.
    pub open spec fn text(self) -> Seq<char> {
        match self {
            CreatePMError::UnknownError(_) => "Internal Server Error"@,
            CreatePMError::PeerNotFound => "Peer user not found"@,
        }
    }

    /// The line for the log.
    pub open spec fn log_text(self) -> Seq<char> {
        match self {
            CreatePMError::PeerNotFound => "Peer user not found"@,
            CreatePMError::UnknownError(fault) => unknown_error_text(fault),
        }
    }

    /// The HTTP status of the failure.
    pub fn status_code(&self) -> (code: u16)
        ensures
            code == self.status(),
    {
        match self {
            CreatePMError::UnknownError(_) => INTERNAL_SERVER_ERROR,
            CreatePMError::PeerNotFound => BAD_REQUEST,
        }
    }

    /// The message for the caller.
    pub fn message(&self) -> (msg: &'static str)
        ensures
            msg@ == self.text(),
    {
        match self {
            CreatePMError::UnknownError(_) => "Internal Server Error",
            CreatePMError::PeerNotFound => "Peer user not found",
        }
    }

    /// The failure as it goes out.
    pub fn error_response(&self) -> (response: ErrorResponse)
        ensures
            response.status == self.status(),
            response.body@ == error_json(self.text()),
    {
        response_error(self.status_code(), self.message())
    }

    /// The failure as a line for the log.
    pub fn to_string(&self) -> (line: String)
        ensures
            line@ == self.log_text(),
    {
        match self {
            CreatePMError::PeerNotFound => "Peer user not found".to_owned(),
            CreatePMError::UnknownError(fault) => unknown_error_line(*fault),
        }
    }
}

impl CreatePMStepView {
    /// The status of the response, once the request has ended: 201 with the
    /// chat's id, whether the chat was created or found, or the error's.
    pub open spec fn status(self) -> Option<u16> {
        match self {
            CreatePMStepView::Done(Ok(_)) => Some(CREATED),
            CreatePMStepView::Done(Err(error)) => Some(error.status()),
            _ => None,
        }
    }
}

impl CreatePMStep {
    /// The status of the response: there is one when the request has ended, and
    /// none before.
    pub fn response_status(&self) -> (status: Option<u16>)
        ensures
            status == self@.status(),
            status is Some <==> self@ is Done,
    {
        match self {
            CreatePMStep::Done(Ok(_)) => Some(CREATED),
            CreatePMStep::Done(Err(error)) => Some(error.status_code()),
            _ => None,
        }
    }
}

/// How a request to open a private chat goes on from a step when an event
/// arrives.
///
/// A peer that is not there ends it. A chat that is found is returned, at the
/// first look and at the second. A chat is created only after a look that found
/// none. A creation that the store refuses for the pair's sake leads to the
/// second look, and never to a second creation: if that look finds nothing, or
/// the store fails at any point, the request ends as an unknown error.
pub open spec fn create_pm_next(step: CreatePMStepView, event: CreatePMEvent) -> CreatePMStepView {
    match (step, event) {
        (CreatePMStepView::Done(result), _) => CreatePMStepView::Done(result),
        (
            CreatePMStepView::FindPeer { user_id, peer_username },
            CreatePMEvent::PeerLookup(found),
        ) => match found {
            PeerLookup::Absent => CreatePMStepView::Done(Err(CreatePMError::PeerNotFound)),
            PeerLookup::Found(peer_id) => CreatePMStepView::FindChat {
                pair: ChatPair::of(user_id, peer_id),
            },
            PeerLookup::Failed => CreatePMStepView::Done(
                Err(CreatePMError::UnknownError(Fault::LoadPeer)),
            ),
        },
        (CreatePMStepView::FindChat { pair }, CreatePMEvent::ChatLookup(found)) => match found {
            ChatLookup::Found(chat_id) => CreatePMStepView::Done(Ok(chat_id)),
            ChatLookup::Absent => CreatePMStepView::CreateChat { pair },
            ChatLookup::Failed => CreatePMStepView::Done(
                Err(CreatePMError::UnknownError(Fault::QueryChat)),
            ),
        },
        (
            CreatePMStepView::CreateChat { pair },
            CreatePMEvent::ChatInserted(inserted),
        ) => match inserted {
            ChatInsert::Created(chat_id) => CreatePMStepView::Done(Ok(chat_id)),
            ChatInsert::Conflict => CreatePMStepView::RefetchChat { pair },
            ChatInsert::Failed => CreatePMStepView::Done(
                Err(CreatePMError::UnknownError(Fault::InsertChat)),
            ),
        },
        (CreatePMStepView::RefetchChat { pair }, CreatePMEvent::ChatLookup(found)) => match found {
            ChatLookup::Found(chat_id) => CreatePMStepView::Done(Ok(chat_id)),
            ChatLookup::Absent => CreatePMStepView::Done(
                Err(CreatePMError::UnknownError(Fault::InsertChat)),
            ),
            ChatLookup::Failed => CreatePMStepView::Done(
                Err(CreatePMError::UnknownError(Fault::QueryChat)),
            ),
        },
        _ => CreatePMStepView::Done(Err(CreatePMError::UnknownError(Fault::UnexpectedEvent))),
    }
}

/// Starts a request to open a private chat between the caller and the user
/// named in the body: asks for that user to be looked up.
pub fn create_pm(payload: CreatePMModel, credentials: BearerAuth) -> (step: CreatePMStep)
    ensures
        step@ == (CreatePMStepView::FindPeer {
            user_id: credentials.user_id,
            peer_username: payload.peer_username@,
        }),
{
    CreatePMStep::FindPeer { user_id: credentials.user_id, peer_username: payload.peer_username }
}

/// Takes a request to open a private chat one step further with the answer to
/// what it asked for.
pub fn create_pm_chat(step: CreatePMStep, event: CreatePMEvent) -> (next: CreatePMStep)
    ensures
        next@ == create_pm_next(step@, event),
{
    match step {
        CreatePMStep::Done(result) => CreatePMStep::Done(result),
        CreatePMStep::FindPeer { user_id, peer_username } => match event {
            CreatePMEvent::PeerLookup(PeerLookup::Absent) => CreatePMStep::Done(
                Err(CreatePMError::PeerNotFound),
            ),
            CreatePMEvent::PeerLookup(PeerLookup::Found(peer_id)) => CreatePMStep::FindChat {
                pair: ChatPair::new(user_id, peer_id),
            },
            CreatePMEvent::PeerLookup(PeerLookup::Failed) => CreatePMStep::Done(
                Err(CreatePMError::UnknownError(Fault::LoadPeer)),
            ),
            _ => CreatePMStep::Done(Err(CreatePMError::UnknownError(Fault::UnexpectedEvent))),
        },
        CreatePMStep::FindChat { pair } => match event {
            CreatePMEvent::ChatLookup(ChatLookup::Found(chat_id)) => CreatePMStep::Done(
                Ok(chat_id),
            ),
            CreatePMEvent::ChatLookup(ChatLookup::Absent) => CreatePMStep::CreateChat { pair },
            CreatePMEvent::ChatLookup(ChatLookup::Failed) => CreatePMStep::Done(
                Err(CreatePMError::UnknownError(Fault::QueryChat)),
            ),
            _ => CreatePMStep::Done(Err(CreatePMError::UnknownError(Fault::UnexpectedEvent))),
        },
        CreatePMStep::CreateChat { pair } => match event {
            CreatePMEvent::ChatInserted(ChatInsert::Created(chat_id)) => CreatePMStep::Done(
                Ok(chat_id),
            ),
            CreatePMEvent::ChatInserted(ChatInsert::Conflict) => CreatePMStep::RefetchChat {
                pair,
            },
            CreatePMEvent::ChatInserted(ChatInsert::Failed) => CreatePMStep::Done(
                Err(CreatePMError::UnknownError(Fault::InsertChat)),
            ),
            _ => CreatePMStep::Done(Err(CreatePMError::UnknownError(Fault::UnexpectedEvent))),
        },
        CreatePMStep::RefetchChat { pair } => match event {
            CreatePMEvent::ChatLookup(ChatLookup::Found(chat_id)) => CreatePMStep::Done(
                Ok(chat_id),
            ),
            CreatePMEvent::ChatLookup(ChatLookup::Absent) => CreatePMStep::Done(
                Err(CreatePMError::UnknownError(Fault::InsertChat)),
            ),
            CreatePMEvent::ChatLookup(ChatLookup::Failed) => CreatePMStep::Done(
                Err(CreatePMError::UnknownError(Fault::QueryChat)),
            ),
            _ => CreatePMStep::Done(Err(CreatePMError::UnknownError(Fault::UnexpectedEvent))),
        },
    }
}

} // verus!
