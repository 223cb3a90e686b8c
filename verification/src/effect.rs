//! The boundary between the engine and the outside: the actions a handler
//! asks for, the events that answer them, and one step of a handler.
//!
//! A handler never talks to the chat service or the network. It is a
//! function from its state and the last event to either its next state and
//! the action to perform, or its result. Whoever drives it performs the
//! action and hands back the event. A handler is started in its `Start`
//! state with [`Event::Begin`]; in that state it reads no event.

use crate::failure::{outcome, Failure, FailureView, TransportError};
use crate::media::{ImageMessage, ImageMessageView};
use crate::state::{Document, DocumentView, StateKey};
use crate::xkcd::{Comic, ComicView};
use vstd::prelude::*;

verus! {

/// The answer to an HTTP request: status code and body.
#[derive(Debug, PartialEq, Eq)]
pub struct HttpResponse {
    pub status: u16,
    pub body: Vec<u8>,
}

/// What contracts see of a [`HttpResponse`].
pub struct HttpResponseView {
    pub status: u16,
    pub body: Seq<u8>,
}

impl View for HttpResponse {
    type V = HttpResponseView;

    open spec fn view(&self) -> HttpResponseView {
        HttpResponseView { status: self.status, body: self.body@ }
    }
}

/// What a handler asks the outside to do in the room it works for.
#[derive(Debug, PartialEq, Eq)]
pub enum Action {
    /// Read the room's document under a key.
    GetState(StateKey),
    /// Write a document under its key.
    SetState(Document),
    /// Ask for a user's current power level.
    QueryLevel(String),
    /// Send a plain message.
    SendText(String),
    /// Send a rich message.
    SendImage(ImageMessage),
    /// Fetch a resource by its locator.
    Fetch(String),
    /// Read a comic's record out of a fetched body.
    DecodeComic(Vec<u8>),
    /// Upload a payload of the given MIME type.
    Upload(Vec<u8>, String),
    /// Mark an event as read.
    SendReceipt(String),
}

/// What contracts see of a [`Action`].
pub enum ActionView {
    GetState(StateKey),
    SetState(DocumentView),
    QueryLevel(Seq<char>),
    SendText(Seq<char>),
    SendImage(ImageMessageView),
    Fetch(Seq<char>),
    DecodeComic(Seq<u8>),
    Upload(Seq<u8>, Seq<char>),
    SendReceipt(Seq<char>),
}

impl View for Action {
    type V = ActionView;

    open spec fn view(&self) -> ActionView {
        match *self {
            Action::GetState(k) => ActionView::GetState(k),
            Action::SetState(d) => ActionView::SetState(d@),
            Action::QueryLevel(u) => ActionView::QueryLevel(u@),
            Action::SendText(t) => ActionView::SendText(t@),
            Action::SendImage(m) => ActionView::SendImage(m@),
            Action::Fetch(u) => ActionView::Fetch(u@),
            Action::DecodeComic(b) => ActionView::DecodeComic(b@),
            Action::Upload(b, m) => ActionView::Upload(b@, m@),
            Action::SendReceipt(e) => ActionView::SendReceipt(e@),
        }
    }
}

/// What the outside hands back.
#[derive(Debug, PartialEq, Eq)]
pub enum Event {
    /// Nothing yet: the handler is being started.
    Begin,
    /// The send or the write went through.
    Completed,
    /// The action failed.
    Failed(Failure),
    /// The document that was read.
    State(Document),
    /// The power level that was asked for.
    Level(u32),
    /// The response to a fetch.
    Fetched(HttpResponse),
    /// The comic's record that a body held.
    Decoded(Comic),
    /// The content reference of an upload.
    Uploaded(String),
}

/// What contracts see of a [`Event`].
pub enum EventView {
    Begin,
    Completed,
    Failed(FailureView),
    State(DocumentView),
    Level(u32),
    Fetched(HttpResponseView),
    Decoded(ComicView),
    Uploaded(Seq<char>),
}

impl View for Event {
    type V = EventView;

    open spec fn view(&self) -> EventView {
        match *self {
            Event::Begin => EventView::Begin,
            Event::Completed => EventView::Completed,
            Event::Failed(f) => EventView::Failed(f@),
            Event::State(d) => EventView::State(d@),
            Event::Level(l) => EventView::Level(l),
            Event::Fetched(r) => EventView::Fetched(r@),
            Event::Decoded(c) => EventView::Decoded(c@),
            Event::Uploaded(u) => EventView::Uploaded(u@),
        }
    }
}

/// One step of a handler: go on in a new state with an action to perform, or
/// end with a result.
#[derive(Debug, PartialEq, Eq)]
pub enum Step<S, T> {
    Next(S, Action),
    Done(Result<T, TransportError>),
}

/// What contracts see of a [`Step`].
pub enum StepView<S, T> {
    Next(S, ActionView),
    Done(Result<T, Seq<char>>),
}

impl<S: View, T: View> View for Step<S, T> {
    type V = StepView<S::V, T::V>;

    open spec fn view(&self) -> StepView<S::V, T::V> {
        match *self {
            Step::Next(s, a) => StepView::Next(s@, a@),
            Step::Done(Ok(t)) => StepView::Done(Ok(t@)),
            Step::Done(Err(e)) => StepView::Done(Err(e@)),
        }
    }
}

/// The error that ends a handler when the action it waited for did not
/// bring the event it needs.
pub open spec fn refused(event: EventView) -> Seq<char> {
    match event {
        EventView::Failed(f) => f.description,
        _ => crate::failure::unexpected_reply(),
    }
}

/// Turns an event that is not the awaited one into the handler's error.
pub fn refuse(event: Event) -> (r: TransportError)
    ensures
        r@ == refused(event@),
{
    match event {
        Event::Failed(f) => TransportError::from_failure(f),
        _ => TransportError::unexpected(),
    }
}

/// The result of an action that only has to go through.
pub open spec fn acknowledged(event: EventView) -> Result<(), Seq<char>> {
    match event {
        EventView::Completed => Ok(()),
        _ => Err(refused(event)),
    }
}

/// Settles an action that only has to go through.
pub fn acknowledge(event: Event) -> (r: Result<(), TransportError>)
    ensures
        outcome(r) == acknowledged(event@),
{
    match event {
        Event::Completed => Ok(()),
        other => Err(refuse(other)),
    }
}

/// Where a handler that only writes one document stands.
#[derive(Clone, Copy, Debug, PartialEq, Eq, Structural)]
pub enum WriteStep {
    Start,
    Writing,
}

impl View for WriteStep {
    type V = WriteStep;

    open spec fn view(&self) -> WriteStep {
        *self
    }
}

} // verus!
