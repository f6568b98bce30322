//! What an operation answers: its outcome, the status code and message that go
//! with it, and the uniform `{data, message, status}` reply shape.

use vstd::prelude::*;

use crate::doc_id::DocId;
use crate::event::{AvailableEvents, EventInfo, EventView};

verus! {

/// Whether the document store is attached.
#[derive(Clone, Copy, Debug, PartialEq, Eq, Structural)]
pub enum Mode {
    On,
    Off,
}

/// The reply shape: a payload (or none), a message and the status code again,
/// for clients that read only the body.
#[derive(Debug)]
pub struct Response<'m, T> {
    pub data: Option<T>,
    pub message: &'m str,
    pub status: u32,
}

/// The payload of a reply that carries nothing: an empty byte array.
#[derive(Debug)]
pub struct Nill<'n>(pub &'n [u8]);

/// The result of a lifecycle operation.
#[derive(Debug)]
pub enum Outcome {
    /// An event with the requested title already exists; it is handed back.
    Found(EventInfo),
    /// A new event was stored under this identifier.
    Inserted(DocId),
    /// The store refused the insertion, with its message.
    InsertFailed(String),
    /// The events that are not expired.
    Fetched(AvailableEvents),
    /// The vote was recorded.
    Voted,
    /// The event, now marked expired.
    Expired(EventInfo),
    /// The event that was removed.
    Deleted(EventInfo),
    NotFound,
    /// The event is expired and the store refuses votes on expired events.
    EventExpired,
    WrongApiKey,
    MalformedId,
    StorageUnavailable,
    /// A read or an update failed, with the store's message.
    StorageError(String),
}

pub enum OutcomeView {
    Found(EventView),
    Inserted(Seq<u8>),
    InsertFailed(Seq<char>),
    Fetched(Seq<EventView>),
    Voted,
    Expired(EventView),
    Deleted(EventView),
    NotFound,
    EventExpired,
    WrongApiKey,
    MalformedId,
    StorageUnavailable,
    StorageError(Seq<char>),
}

impl View for Outcome {
    type V = OutcomeView;

    open spec fn view(&self) -> OutcomeView {
        match self {
            Outcome::Found(e) => OutcomeView::Found(e@),
            Outcome::Inserted(id) => OutcomeView::Inserted(id@),
            Outcome::InsertFailed(m) => OutcomeView::InsertFailed(m@),
            Outcome::Fetched(a) => OutcomeView::Fetched(a@),
            Outcome::Voted => OutcomeView::Voted,
            Outcome::Expired(e) => OutcomeView::Expired(e@),
            Outcome::Deleted(e) => OutcomeView::Deleted(e@),
            Outcome::NotFound => OutcomeView::NotFound,
            Outcome::EventExpired => OutcomeView::EventExpired,
            Outcome::WrongApiKey => OutcomeView::WrongApiKey,
            Outcome::MalformedId => OutcomeView::MalformedId,
            Outcome::StorageUnavailable => OutcomeView::StorageUnavailable,
            Outcome::StorageError(m) => OutcomeView::StorageError(m@),
        }
    }
}

/// The status code that answers an outcome.
pub open spec fn status_of(o: OutcomeView) -> u32 {
    match o {
        OutcomeView::Found(_) => 302,
        OutcomeView::Inserted(_) => 201,
        OutcomeView::InsertFailed(_) => 406,
        OutcomeView::Fetched(_) => 200,
        OutcomeView::Voted => 200,
        OutcomeView::Expired(_) => 200,
        OutcomeView::Deleted(_) => 200,
        OutcomeView::NotFound => 404,
        OutcomeView::EventExpired => 409,
        OutcomeView::WrongApiKey => 403,
        OutcomeView::MalformedId => 400,
        OutcomeView::StorageUnavailable => 503,
        OutcomeView::StorageError(_) => 500,
    }
}

/// The message that answers an outcome: the store's own words for a failure,
/// a fixed word otherwise.
pub open spec fn message_of(o: OutcomeView) -> Seq<char> {
    match o {
        OutcomeView::Found(_) => "FOUND_DOCUMENT"@,
        OutcomeView::Inserted(_) => "INSERTED"@,
        OutcomeView::InsertFailed(m) => m,
        OutcomeView::Fetched(_) => "FETCHED"@,
        OutcomeView::Voted => "UPDATED"@,
        OutcomeView::Expired(_) => "UPDATED"@,
        OutcomeView::Deleted(_) => "DELETED"@,
        OutcomeView::NotFound => "NOT_FOUND_DOCUMENT"@,
        OutcomeView::EventExpired => "EVENT_EXPIRED"@,
        OutcomeView::WrongApiKey => "WRONG_API_KEY"@,
        OutcomeView::MalformedId => "MALFORMED_ID"@,
        OutcomeView::StorageUnavailable => "STORAGE_UNAVAILABLE"@,
        OutcomeView::StorageError(m) => m,
    }
}

impl Outcome {
    /// The status code of the reply.
    pub fn status(&self) -> (r: u32)
        ensures
            r == status_of(self@),
    {
        match self {
            Outcome::Found(_) => 302,
            Outcome::Inserted(_) => 201,
            Outcome::InsertFailed(_) => 406,
            Outcome::Fetched(_) => 200,
            Outcome::Voted => 200,
            Outcome::Expired(_) => 200,
            Outcome::Deleted(_) => 200,
            Outcome::NotFound => 404,
            Outcome::EventExpired => 409,
            Outcome::WrongApiKey => 403,
            Outcome::MalformedId => 400,
            Outcome::StorageUnavailable => 503,
            Outcome::StorageError(_) => 500,
        }
    }

    /// The message of the reply.
    pub fn message(&self) -> (r: &str)
        ensures
            r@ == message_of(self@),
    {
        match self {
            Outcome::Found(_) => "FOUND_DOCUMENT",
            Outcome::Inserted(_) => "INSERTED",
            Outcome::InsertFailed(m) => m.as_str(),
            Outcome::Fetched(_) => "FETCHED",
            Outcome::Voted => "UPDATED",
            Outcome::Expired(_) => "UPDATED",
            Outcome::Deleted(_) => "DELETED",
            Outcome::NotFound => "NOT_FOUND_DOCUMENT",
            Outcome::EventExpired => "EVENT_EXPIRED",
            Outcome::WrongApiKey => "WRONG_API_KEY",
            Outcome::MalformedId => "MALFORMED_ID",
            Outcome::StorageUnavailable => "STORAGE_UNAVAILABLE",
            Outcome::StorageError(m) => m.as_str(),
        }
    }
}

impl<'n> Nill<'n> {
    /// The empty payload.
    pub fn empty() -> (r: Nill<'n>)
        ensures
            r.0@.len() == 0,
    {
        Nill(&[])
    }
}

impl<'m, T> Response<'m, T> {
    /// The reply to `outcome`, carrying `data`.
    pub fn of(outcome: &'m Outcome, data: Option<T>) -> (r: Response<'m, T>)
        ensures
            r.status == status_of(outcome@),
            r.message@ == message_of(outcome@),
            r.data == data,
    {
        Response { data, message: outcome.message(), status: outcome.status() }
    }
}

} // verus!
