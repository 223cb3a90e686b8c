//! The laughter counter of a room.

use crate::effect::{
    acknowledge, acknowledged, Action, ActionView, Event, EventView, Step, StepView, WriteStep,
};
use crate::state::{
    found_lolcount, is_not_found, lookup_lolcount, Document, DocumentView, Lookup, LookupView,
    StateKey,
};
use vstd::prelude::*;

verus! {

/// The persisted counter. A room without the document has laughed 0 times.
#[derive(Clone, Copy, Debug, Default, PartialEq, Eq, Structural)]
pub struct Lolcount {
    pub lol_count: u32,
}

impl View for Lolcount {
    type V = Lolcount;

    open spec fn view(&self) -> Lolcount {
        *self
    }
}

/// Where a read of the counter stands.
#[derive(Clone, Copy, Debug, PartialEq, Eq, Structural)]
pub enum LolsRead {
    Start,
    Reading,
}

impl View for LolsRead {
    type V = LolsRead;

    open spec fn view(&self) -> LolsRead {
        *self
    }
}

/// The count that a lookup stands for: the document's, 0 where there is
/// none, the error where the read failed.
pub open spec fn count_of(found: LookupView<Lolcount>) -> Result<u32, Seq<char>> {
    match found {
        LookupView::Found(l) => Ok(l.lol_count),
        LookupView::Absent => Ok(0u32),
        LookupView::Failed(e) => Err(e),
    }
}

/// Reading the counter: ask for the document, then take its count.
pub open spec fn get_lols_step(state: LolsRead, event: EventView) -> StepView<LolsRead, u32> {
    match state {
        LolsRead::Start => StepView::Next(LolsRead::Reading, ActionView::GetState(StateKey::Lolcount)),
        LolsRead::Reading => StepView::Done(count_of(found_lolcount(event))),
    }
}

/// Reads the room's counter. A store that answers not found yields 0, never
/// an error; any other failure is handed on as an error, never as a 0.
pub fn get_lols(state: LolsRead, event: Event) -> (r: Step<LolsRead, u32>)
    ensures
        r@ == get_lols_step(state, event@),
        state is Reading ==> match event@ {
            EventView::State(DocumentView::Lolcount(l)) => r@ == StepView::<LolsRead, u32>::Done(
                Ok(l.lol_count),
            ),
            EventView::Failed(f) => r@ == StepView::<LolsRead, u32>::Done(
                if is_not_found(f) {
                    Ok(0u32)
                } else {
                    Err(f.description)
                },
            ),
            _ => r@ matches StepView::Done(Err(_)),
        },
{
    match state {
        LolsRead::Start => Step::Next(LolsRead::Reading, Action::GetState(StateKey::Lolcount)),
        LolsRead::Reading => match lookup_lolcount(event) {
            Lookup::Found(l) => Step::Done(Ok(l.lol_count)),
            Lookup::Absent => Step::Done(Ok(0)),
            Lookup::Failed(e) => Step::Done(Err(e)),
        },
    }
}

/// Writing the counter: ask for the write of the document with the count,
/// then wait for it to go through.
pub open spec fn set_lols_step(state: WriteStep, event: EventView, lc: u32) -> StepView<
    WriteStep,
    (),
> {
    match state {
        WriteStep::Start => StepView::Next(
            WriteStep::Writing,
            ActionView::SetState(DocumentView::Lolcount(Lolcount { lol_count: lc })),
        ),
        WriteStep::Writing => StepView::Done(acknowledged(event)),
    }
}

/// Overwrites the room's counter.
pub fn set_lols(state: WriteStep, event: Event, lc: u32) -> (r: Step<WriteStep, ()>)
    ensures
        r@ == set_lols_step(state, event@, lc),
{
    match state {
        WriteStep::Start => Step::Next(
            WriteStep::Writing,
            Action::SetState(Document::Lolcount(Lolcount { lol_count: lc })),
        ),
        WriteStep::Writing => Step::Done(acknowledge(event)),
    }
}

} // verus!
