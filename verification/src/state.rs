//! Room-scoped state: the keys, the documents kept under them, and the
//! reading of a lookup's outcome as found, absent or failed.

use crate::effect::{Event, EventView};
use crate::failure::{Failure, FailureView, TransportError};
use crate::lolcount::Lolcount;
use crate::text::same_text;
use crate::wfrog::{WfrogSettings, WfrogSettingsView, WfrogState};
use vstd::prelude::*;

verus! {

/// The keys under which the engine keeps documents in a room.
#[derive(Clone, Copy, Debug, PartialEq, Eq, Structural)]
pub enum StateKey {
    Lolcount,
    WfrogSettings,
    WfrogState,
}

impl StateKey {
    /// The name of the key in the room's state store.
    pub open spec fn name_of(self) -> Seq<char> {
        match self {
            StateKey::Lolcount => "org.eu.theta.lolcount"@,
            StateKey::WfrogSettings => "org.eu.theta.wfrog.settings"@,
            StateKey::WfrogState => "org.eu.theta.wfrog.state"@,
        }
    }

    /// The name of the key in the room's state store.
    pub fn name(&self) -> (r: &'static str)
        ensures
            r@ == self.name_of(),
    {
        match self {
            StateKey::Lolcount => "org.eu.theta.lolcount",
            StateKey::WfrogSettings => "org.eu.theta.wfrog.settings",
            StateKey::WfrogState => "org.eu.theta.wfrog.state",
        }
    }

    /// No two keys share a name, so no document of one kind can overwrite
    /// one of another.
    pub proof fn lemma_names_differ(a: StateKey, b: StateKey)
        requires
            a != b,
        ensures
            a.name_of() != b.name_of(),
    {
        reveal_strlit("org.eu.theta.lolcount");
        reveal_strlit("org.eu.theta.wfrog.settings");
        reveal_strlit("org.eu.theta.wfrog.state");
        assert(a.name_of().len() != b.name_of().len());
    }
}

/// A document of the room's state, of one of the three kinds.
#[derive(Debug, PartialEq, Eq)]
pub enum Document {
    Lolcount(Lolcount),
    Settings(WfrogSettings),
    Trigger(WfrogState),
}

/// What contracts see of a [`Document`].
pub enum DocumentView {
    Lolcount(Lolcount),
    Settings(WfrogSettingsView),
    Trigger(WfrogState),
}

impl View for Document {
    type V = DocumentView;

    open spec fn view(&self) -> DocumentView {
        match *self {
            Document::Lolcount(l) => DocumentView::Lolcount(l),
            Document::Settings(s) => DocumentView::Settings(s@),
            Document::Trigger(t) => DocumentView::Trigger(t),
        }
    }
}

impl DocumentView {
    /// The key that a document is kept under.
    pub open spec fn key(self) -> StateKey {
        match self {
            DocumentView::Lolcount(_) => StateKey::Lolcount,
            DocumentView::Settings(_) => StateKey::WfrogSettings,
            DocumentView::Trigger(_) => StateKey::WfrogState,
        }
    }
}

impl Document {
    /// The key that the document is kept under.
    pub fn key(&self) -> (r: StateKey)
        ensures
            r == self@.key(),
    {
        match self {
            Document::Lolcount(_) => StateKey::Lolcount,
            Document::Settings(_) => StateKey::WfrogSettings,
            Document::Trigger(_) => StateKey::WfrogState,
        }
    }
}

/// The outcome of reading a document: it is there, it was never written, or
/// the read failed.
#[derive(Debug, PartialEq, Eq)]
pub enum Lookup<T> {
    Found(T),
    Absent,
    Failed(TransportError),
}

/// What contracts see of a [`Lookup`].
pub enum LookupView<T> {
    Found(T),
    Absent,
    Failed(Seq<char>),
}

impl<T: View> View for Lookup<T> {
    type V = LookupView<T::V>;

    open spec fn view(&self) -> LookupView<T::V> {
        match *self {
            Lookup::Found(t) => LookupView::Found(t@),
            Lookup::Absent => LookupView::Absent,
            Lookup::Failed(e) => LookupView::Failed(e@),
        }
    }
}

/// Whether a failure is the store's way of saying that nothing was ever
/// written under the key.
pub open spec fn is_not_found(f: FailureView) -> bool {
    f.errcode == Some("M_NOT_FOUND"@)
}

/// Tells whether a failure says that nothing was ever written under the
/// key.
pub fn not_found(f: &Failure) -> (r: bool)
    ensures
        r == is_not_found(f@),
{
    match &f.errcode {
        Some(code) => same_text(code.as_str(), "M_NOT_FOUND"),
        None => false,
    }
}

/// How a read that brought no document counts: absent where the store said
/// not found, failed with the failure's description on any other failure,
/// failed as an unexpected reply on any other event.
pub open spec fn missing<T>(event: EventView) -> LookupView<T> {
    match event {
        EventView::Failed(f) => if is_not_found(f) {
            LookupView::Absent
        } else {
            LookupView::Failed(f.description)
        },
        _ => LookupView::Failed(crate::failure::unexpected_reply()),
    }
}

/// The lolcount that a read brought.
pub open spec fn found_lolcount(event: EventView) -> LookupView<Lolcount> {
    match event {
        EventView::State(DocumentView::Lolcount(l)) => LookupView::Found(l),
        _ => missing(event),
    }
}

/// The settings that a read brought.
pub open spec fn found_settings(event: EventView) -> LookupView<WfrogSettingsView> {
    match event {
        EventView::State(DocumentView::Settings(s)) => LookupView::Found(s),
        _ => missing(event),
    }
}

/// The trigger state that a read brought.
pub open spec fn found_trigger(event: EventView) -> LookupView<WfrogState> {
    match event {
        EventView::State(DocumentView::Trigger(t)) => LookupView::Found(t),
        _ => missing(event),
    }
}

fn no_document<T: View>(event: Event) -> (r: Lookup<T>)
    ensures
        r@ == missing::<T::V>(event@),
{
    match event {
        Event::Failed(f) => {
            if not_found(&f) {
                Lookup::Absent
            } else {
                Lookup::Failed(TransportError::from_failure(f))
            }
        },
        _ => Lookup::Failed(TransportError::unexpected()),
    }
}

/// Reads the answer to a lookup of the lolcount.
pub fn lookup_lolcount(event: Event) -> (r: Lookup<Lolcount>)
    ensures
        r@ == found_lolcount(event@),
{
    match event {
        Event::State(Document::Lolcount(l)) => Lookup::Found(l),
        other => no_document(other),
    }
}

/// Reads the answer to a lookup of the settings.
pub fn lookup_settings(event: Event) -> (r: Lookup<WfrogSettings>)
    ensures
        r@ == found_settings(event@),
{
    match event {
        Event::State(Document::Settings(s)) => Lookup::Found(s),
        other => no_document(other),
    }
}

/// Reads the answer to a lookup of the trigger state.
pub fn lookup_trigger(event: Event) -> (r: Lookup<WfrogState>)
    ensures
        r@ == found_trigger(event@),
{
    match event {
        Event::State(Document::Trigger(t)) => Lookup::Found(t),
        other => no_document(other),
    }
}

} // verus!
