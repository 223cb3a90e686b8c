//! The daily picture: its per-room settings and trigger state, the commands
//! that configure it, and the scheduler that posts it once per calendar day.

use crate::effect::{
    acknowledge, acknowledged, refuse, refused, Action, ActionView, Event, EventView, Step, StepView,
    WriteStep,
};
use crate::failure::TransportError;
use crate::media::{ImageInfo, ImageInfoView, ImageMessage, ImageMessageView};
use crate::state::{
    found_settings, found_trigger, lookup_settings, lookup_trigger, Document, DocumentView, Lookup,
    LookupView, StateKey,
};
use crate::text::{optional, same_text, views};
use crate::time::{out_of_range, out_of_range_error, utc_text, Timestamp};
use vstd::prelude::*;

verus! {

/// The configuration of the daily picture in one room.
#[derive(Debug, PartialEq, Eq)]
pub struct WfrogSettings {
    /// Content reference of the picture.
    pub link: String,
    /// Caption; empty for none.
    pub text: String,
    pub info: ImageInfo,
    pub enabled: bool,
}

/// What contracts see of a [`WfrogSettings`].
pub struct WfrogSettingsView {
    pub link: Seq<char>,
    pub text: Seq<char>,
    pub info: ImageInfoView,
    pub enabled: bool,
}

impl View for WfrogSettings {
    type V = WfrogSettingsView;

    open spec fn view(&self) -> WfrogSettingsView {
        WfrogSettingsView {
            link: self.link@,
            text: self.text@,
            info: self.info@,
            enabled: self.enabled,
        }
    }
}

/// When the daily picture was last posted in one room.
#[derive(Clone, Copy, Debug, PartialEq, Eq, Structural)]
pub struct WfrogState {
    pub last: Timestamp,
}

impl View for WfrogState {
    type V = WfrogState;

    open spec fn view(&self) -> WfrogState {
        *self
    }
}

/// The rich message that shows a room's configured picture: the caption as
/// its body, the picture's reference and metadata.
pub open spec fn picture_of(s: WfrogSettingsView) -> ImageMessageView {
    ImageMessageView { body: s.text, url: s.link, info: s.info }
}

/// The trigger state that an absent document counts as: never posted.
pub open spec fn never_posted() -> WfrogState {
    WfrogState { last: Timestamp { secs: 0, nanos: 0 } }
}

/// What a tick did in one room.
#[derive(Clone, Copy, Debug, PartialEq, Eq, Structural)]
pub enum TickOutcome {
    /// The picture was posted and the tick time recorded.
    Posted,
    /// The picture was already posted on the tick's calendar day.
    AlreadyPosted,
    /// The room has settings, switched off.
    Disabled,
    /// The room has no settings.
    Unconfigured,
}

impl View for TickOutcome {
    type V = TickOutcome;

    open spec fn view(&self) -> TickOutcome {
        *self
    }
}

/// Where the scheduler stands in one room.
#[derive(Debug, PartialEq, Eq)]
pub enum RoomTick {
    Start,
    ReadingTrigger,
    ReadingSettings,
    /// The caption is on its way; the picture follows.
    SendingCaption(ImageMessage),
    SendingPicture,
    Persisting,
}

/// What contracts see of a [`RoomTick`].
pub enum RoomTickView {
    Start,
    ReadingTrigger,
    ReadingSettings,
    SendingCaption(ImageMessageView),
    SendingPicture,
    Persisting,
}

impl View for RoomTick {
    type V = RoomTickView;

    open spec fn view(&self) -> RoomTickView {
        match *self {
            RoomTick::Start => RoomTickView::Start,
            RoomTick::ReadingTrigger => RoomTickView::ReadingTrigger,
            RoomTick::ReadingSettings => RoomTickView::ReadingSettings,
            RoomTick::SendingCaption(m) => RoomTickView::SendingCaption(m@),
            RoomTick::SendingPicture => RoomTickView::SendingPicture,
            RoomTick::Persisting => RoomTickView::Persisting,
        }
    }
}

/// The step after the trigger state was looked up: stop where the picture
/// was posted on the day of `now` already, else go on to the settings.
pub open spec fn after_trigger(found: LookupView<WfrogState>, now: Timestamp) -> StepView<
    RoomTickView,
    TickOutcome,
> {
    match found {
        LookupView::Failed(e) => StepView::Done(Err(e)),
        _ => {
            let last = match found {
                LookupView::Found(t) => t.last,
                _ => never_posted().last,
            };
            match last.same_day_as(now) {
                None => StepView::Done(Err(out_of_range())),
                Some(true) => StepView::Done(Ok(TickOutcome::AlreadyPosted)),
                Some(false) => StepView::Next(
                    RoomTickView::ReadingSettings,
                    ActionView::GetState(StateKey::WfrogSettings),
                ),
            }
        },
    }
}

/// The step after the settings were looked up: nothing to do without
/// settings or with the feature switched off; else the caption goes out
/// first if there is one, the picture if there is none.
pub open spec fn after_settings(found: LookupView<WfrogSettingsView>) -> StepView<
    RoomTickView,
    TickOutcome,
> {
    match found {
        LookupView::Failed(e) => StepView::Done(Err(e)),
        LookupView::Absent => StepView::Done(Ok(TickOutcome::Unconfigured)),
        LookupView::Found(s) => if !s.enabled {
            StepView::Done(Ok(TickOutcome::Disabled))
        } else if s.text.len() > 0 {
            StepView::Next(RoomTickView::SendingCaption(picture_of(s)), ActionView::SendText(s.text))
        } else {
            StepView::Next(RoomTickView::SendingPicture, ActionView::SendImage(picture_of(s)))
        },
    }
}

/// One room's share of a tick at the time `now`. The trigger state is read
/// first and the settings only on a day without a post; the caption and the
/// picture are sent before the tick time is written, so a failure in between
/// can repeat a post but never skips a day.
pub open spec fn wfrog_process_room_step(state: RoomTickView, event: EventView, now: Timestamp) -> StepView<
    RoomTickView,
    TickOutcome,
> {
    match state {
        RoomTickView::Start => StepView::Next(
            RoomTickView::ReadingTrigger,
            ActionView::GetState(StateKey::WfrogState),
        ),
        RoomTickView::ReadingTrigger => after_trigger(found_trigger(event), now),
        RoomTickView::ReadingSettings => after_settings(found_settings(event)),
        RoomTickView::SendingCaption(picture) => match event {
            EventView::Completed => StepView::Next(
                RoomTickView::SendingPicture,
                ActionView::SendImage(picture),
            ),
            _ => StepView::Done(Err(refused(event))),
        },
        RoomTickView::SendingPicture => match event {
            EventView::Completed => StepView::Next(
                RoomTickView::Persisting,
                ActionView::SetState(DocumentView::Trigger(WfrogState { last: now })),
            ),
            _ => StepView::Done(Err(refused(event))),
        },
        RoomTickView::Persisting => match event {
            EventView::Completed => StepView::Done(Ok(TickOutcome::Posted)),
            _ => StepView::Done(Err(refused(event))),
        },
    }
}

/// Runs one room's share of a tick one step further.
pub fn wfrog_process_room(state: RoomTick, event: Event, now: Timestamp) -> (r: Step<
    RoomTick,
    TickOutcome,
>)
    ensures
        r@ == wfrog_process_room_step(state@, event@, now),
{
    match state {
        RoomTick::Start => Step::Next(RoomTick::ReadingTrigger, Action::GetState(StateKey::WfrogState)),
        RoomTick::ReadingTrigger => {
            let last = match lookup_trigger(event) {
                Lookup::Failed(e) => {
                    return Step::Done(Err(e));
                },
                Lookup::Found(t) => t.last,
                Lookup::Absent => Timestamp::epoch(),
            };
            match last.same_day(&now) {
                None => Step::Done(Err(out_of_range_error())),
                Some(true) => Step::Done(Ok(TickOutcome::AlreadyPosted)),
                Some(false) => Step::Next(
                    RoomTick::ReadingSettings,
                    Action::GetState(StateKey::WfrogSettings),
                ),
            }
        },
        RoomTick::ReadingSettings => match lookup_settings(event) {
            Lookup::Failed(e) => Step::Done(Err(e)),
            Lookup::Absent => Step::Done(Ok(TickOutcome::Unconfigured)),
            Lookup::Found(s) => {
                if !s.enabled {
                    Step::Done(Ok(TickOutcome::Disabled))
                } else {
                    let caption = s.text.clone();
                    let picture = ImageMessage { body: s.text, url: s.link, info: s.info };
                    if !caption.as_str().is_empty() {
                        Step::Next(RoomTick::SendingCaption(picture), Action::SendText(caption))
                    } else {
                        Step::Next(RoomTick::SendingPicture, Action::SendImage(picture))
                    }
                }
            },
        },
        RoomTick::SendingCaption(picture) => match event {
            Event::Completed => Step::Next(RoomTick::SendingPicture, Action::SendImage(picture)),
            other => Step::Done(Err(refuse(other))),
        },
        RoomTick::SendingPicture => match event {
            Event::Completed => Step::Next(
                RoomTick::Persisting,
                Action::SetState(Document::Trigger(WfrogState { last: now })),
            ),
            other => Step::Done(Err(refuse(other))),
        },
        RoomTick::Persisting => match event {
            Event::Completed => Step::Done(Ok(TickOutcome::Posted)),
            other => Step::Done(Err(refuse(other))),
        },
    }
}

/// What a room without settings is told.
pub const NOT_CONFIGURED: &'static str =
    "No Wednesday frog settings are active in this room.\nTo configure Wednesday frog, send an image with the filename \"mittwoch.png\".\nYou must have power level 20 or greater to do so.\n";

/// What confirms a change of the settings.
pub const DONE: &'static str = "Done.";

/// The first of the messages that explain a configured room: whether the
/// feature is on, the caption or how to set one, and the line that
/// announces the picture.
pub open spec fn summary_of(s: WfrogSettingsView) -> Seq<char> {
    let active = if s.enabled {
        "Wednesday frog is active!"@
    } else {
        "Wednesday frog is currently disabled."@
    };
    let caption = if s.text.len() > 0 {
        "The text configured is: "@ + s.text
    } else {
        "(Configure text with the command 'mittwoch text [text goes here]'.)"@
    };
    active + "\n"@ + caption + "\nThe image configured is:"@
}

/// Writes the summary of a room's settings.
pub fn summarize(s: &WfrogSettings) -> (r: String)
    ensures
        r@ == summary_of(s@),
{
    let mut out = if s.enabled {
        String::from_str("Wednesday frog is active!")
    } else {
        String::from_str("Wednesday frog is currently disabled.")
    };
    out.append("\n");
    let ghost head = out@;
    if !s.text.as_str().is_empty() {
        out.append("The text configured is: ");
        out.append(s.text.as_str());
        assert(out@ =~= head + ("The text configured is: "@ + s.text@));
    } else {
        out.append("(Configure text with the command 'mittwoch text [text goes here]'.)");
    }
    out.append("\nThe image configured is:");
    out
}

/// The message that tells when the picture was last posted, given the time
/// in writing.
pub open spec fn last_line(written: Seq<char>) -> Seq<char> {
    "Wednesday frog last triggered at: "@ + written
}

/// Where the explanation of a room's settings stands.
#[derive(Debug, PartialEq, Eq)]
pub enum Explain {
    Start,
    ReadingTrigger,
    /// The settings are being read; the time of the last post is known.
    ReadingSettings(Option<Timestamp>),
    /// The summary is on its way; the picture follows.
    SendingSummary(Option<Timestamp>, ImageMessage),
    /// The picture, or the notice that nothing is configured, is on its way.
    Closing(Option<Timestamp>),
    SendingLast,
}

/// What contracts see of a [`Explain`].
pub enum ExplainView {
    Start,
    ReadingTrigger,
    ReadingSettings(Option<Timestamp>),
    SendingSummary(Option<Timestamp>, ImageMessageView),
    Closing(Option<Timestamp>),
    SendingLast,
}

impl View for Explain {
    type V = ExplainView;

    open spec fn view(&self) -> ExplainView {
        match *self {
            Explain::Start => ExplainView::Start,
            Explain::ReadingTrigger => ExplainView::ReadingTrigger,
            Explain::ReadingSettings(last) => ExplainView::ReadingSettings(last),
            Explain::SendingSummary(last, m) => ExplainView::SendingSummary(last, m@),
            Explain::Closing(last) => ExplainView::Closing(last),
            Explain::SendingLast => ExplainView::SendingLast,
        }
    }
}

/// The end of an explanation, given the time of the last post in writing:
/// the line that tells it; nothing more where the picture was never posted;
/// an error where the time has no written form.
pub open spec fn told_last(last: Option<Timestamp>, written: Option<Seq<char>>) -> StepView<
    ExplainView,
    (),
> {
    match last {
        None => StepView::Done(Ok(())),
        Some(_) => match written {
            Some(w) => StepView::Next(ExplainView::SendingLast, ActionView::SendText(last_line(w))),
            None => StepView::Done(Err(out_of_range())),
        },
    }
}

/// Ends an explanation, given the time of the last post in writing.
pub fn tell_last(last: Option<Timestamp>, written: Option<String>) -> (r: Step<Explain, ()>)
    ensures
        r@ == told_last(last, optional(written)),
{
    match last {
        None => Step::Done(Ok(())),
        Some(_) => match written {
            Some(w) => {
                let mut line = String::from_str("Wednesday frog last triggered at: ");
                line.append(w.as_str());
                Step::Next(Explain::SendingLast, Action::SendText(line))
            },
            None => Step::Done(Err(out_of_range_error())),
        },
    }
}

/// The time of the last post in writing, where there was one.
pub open spec fn written_last(last: Option<Timestamp>) -> Option<Seq<char>> {
    match last {
        Some(t) => utc_text(t.secs, t.nanos),
        None => None,
    }
}

/// Explaining a room's settings: read the trigger state and the settings;
/// send the summary and the picture, or the notice that nothing is
/// configured; then tell when the picture was last posted, if ever. A read
/// that fails for another reason than an absent document ends the
/// explanation with that error.
pub open spec fn wfrog_explain_state_step(state: ExplainView, event: EventView) -> StepView<
    ExplainView,
    (),
> {
    match state {
        ExplainView::Start => StepView::Next(
            ExplainView::ReadingTrigger,
            ActionView::GetState(StateKey::WfrogState),
        ),
        ExplainView::ReadingTrigger => match found_trigger(event) {
            LookupView::Failed(e) => StepView::Done(Err(e)),
            LookupView::Found(t) => StepView::Next(
                ExplainView::ReadingSettings(Some(t.last)),
                ActionView::GetState(StateKey::WfrogSettings),
            ),
            LookupView::Absent => StepView::Next(
                ExplainView::ReadingSettings(None),
                ActionView::GetState(StateKey::WfrogSettings),
            ),
        },
        ExplainView::ReadingSettings(last) => match found_settings(event) {
            LookupView::Failed(e) => StepView::Done(Err(e)),
            LookupView::Found(s) => StepView::Next(
                ExplainView::SendingSummary(last, picture_of(s)),
                ActionView::SendText(summary_of(s)),
            ),
            LookupView::Absent => StepView::Next(
                ExplainView::Closing(last),
                ActionView::SendText(NOT_CONFIGURED@),
            ),
        },
        ExplainView::SendingSummary(last, picture) => match event {
            EventView::Completed => StepView::Next(
                ExplainView::Closing(last),
                ActionView::SendImage(picture),
            ),
            _ => StepView::Done(Err(refused(event))),
        },
        ExplainView::Closing(last) => match event {
            EventView::Completed => told_last(last, written_last(last)),
            _ => StepView::Done(Err(refused(event))),
        },
        ExplainView::SendingLast => StepView::Done(acknowledged(event)),
    }
}

/// Runs the explanation of a room's settings one step further.
pub fn wfrog_explain_state(state: Explain, event: Event) -> (r: Step<Explain, ()>)
    ensures
        r@ == wfrog_explain_state_step(state@, event@),
{
    match state {
        Explain::Start => Step::Next(Explain::ReadingTrigger, Action::GetState(StateKey::WfrogState)),
        Explain::ReadingTrigger => match lookup_trigger(event) {
            Lookup::Failed(e) => Step::Done(Err(e)),
            Lookup::Found(t) => Step::Next(
                Explain::ReadingSettings(Some(t.last)),
                Action::GetState(StateKey::WfrogSettings),
            ),
            Lookup::Absent => Step::Next(
                Explain::ReadingSettings(None),
                Action::GetState(StateKey::WfrogSettings),
            ),
        },
        Explain::ReadingSettings(last) => match lookup_settings(event) {
            Lookup::Failed(e) => Step::Done(Err(e)),
            Lookup::Found(s) => {
                let summary = summarize(&s);
                let picture = ImageMessage { body: s.text, url: s.link, info: s.info };
                Step::Next(Explain::SendingSummary(last, picture), Action::SendText(summary))
            },
            Lookup::Absent => Step::Next(
                Explain::Closing(last),
                Action::SendText(String::from_str(NOT_CONFIGURED)),
            ),
        },
        Explain::SendingSummary(last, picture) => match event {
            Event::Completed => Step::Next(Explain::Closing(last), Action::SendImage(picture)),
            other => Step::Done(Err(refuse(other))),
        },
        Explain::Closing(last) => match event {
            Event::Completed => {
                let written = match last {
                    Some(t) => t.text(),
                    None => None,
                };
                tell_last(last, written)
            },
            other => Step::Done(Err(refuse(other))),
        },
        Explain::SendingLast => Step::Done(acknowledge(event)),
    }
}

/// Where a change of a room's settings stands.
#[derive(Clone, Copy, Debug, PartialEq, Eq, Structural)]
pub enum Edit {
    Start,
    Reading,
    Writing,
    Confirming,
    /// The room has no settings and is being told so.
    Notifying,
}

impl View for Edit {
    type V = Edit;

    open spec fn view(&self) -> Edit {
        *self
    }
}

/// Changing a room's settings to what `change` makes of them: read them,
/// write them changed, confirm. A room without settings is told so and
/// nothing is written.
pub open spec fn edit_step(
    state: Edit,
    event: EventView,
    change: spec_fn(WfrogSettingsView) -> WfrogSettingsView,
) -> StepView<Edit, ()> {
    match state {
        Edit::Start => StepView::Next(Edit::Reading, ActionView::GetState(StateKey::WfrogSettings)),
        Edit::Reading => match found_settings(event) {
            LookupView::Failed(e) => StepView::Done(Err(e)),
            LookupView::Absent => StepView::Next(
                Edit::Notifying,
                ActionView::SendText(NOT_CONFIGURED@),
            ),
            LookupView::Found(s) => StepView::Next(
                Edit::Writing,
                ActionView::SetState(DocumentView::Settings(change(s))),
            ),
        },
        Edit::Writing => match event {
            EventView::Completed => StepView::Next(Edit::Confirming, ActionView::SendText(DONE@)),
            _ => StepView::Done(Err(refused(event))),
        },
        Edit::Confirming => StepView::Done(acknowledged(event)),
        Edit::Notifying => StepView::Done(acknowledged(event)),
    }
}

/// The steps of a change that do not depend on what is changed.
fn edit_rest(state: Edit, event: Event) -> (r: Step<Edit, ()>)
    requires
        !(state is Reading),
    ensures
        forall|change: spec_fn(WfrogSettingsView) -> WfrogSettingsView|
            r@ == edit_step(state, event@, change),
{
    match state {
        Edit::Start => Step::Next(Edit::Reading, Action::GetState(StateKey::WfrogSettings)),
        Edit::Writing => match event {
            Event::Completed => Step::Next(
                Edit::Confirming,
                Action::SendText(String::from_str(DONE)),
            ),
            other => Step::Done(Err(refuse(other))),
        },
        _ => Step::Done(acknowledge(event)),
    }
}

/// The settings with another caption.
pub open spec fn with_text(text: Seq<char>) -> spec_fn(WfrogSettingsView) -> WfrogSettingsView {
    |s: WfrogSettingsView| WfrogSettingsView { text, ..s }
}

/// The settings switched on or off.
pub open spec fn with_enabled(which: bool) -> spec_fn(WfrogSettingsView) -> WfrogSettingsView {
    |s: WfrogSettingsView| WfrogSettingsView { enabled: which, ..s }
}

/// Setting the caption of a room's picture.
pub open spec fn wfrog_set_text_step(state: Edit, event: EventView, text: Seq<char>) -> StepView<
    Edit,
    (),
> {
    edit_step(state, event, with_text(text))
}

/// Runs the setting of a caption one step further.
pub fn wfrog_set_text(state: Edit, event: Event, text: &str) -> (r: Step<Edit, ()>)
    ensures
        r@ == wfrog_set_text_step(state, event@, text@),
{
    match state {
        Edit::Reading => match lookup_settings(event) {
            Lookup::Failed(e) => Step::Done(Err(e)),
            Lookup::Absent => Step::Next(
                Edit::Notifying,
                Action::SendText(String::from_str(NOT_CONFIGURED)),
            ),
            Lookup::Found(s) => {
                let changed = WfrogSettings {
                    link: s.link,
                    text: String::from_str(text),
                    info: s.info,
                    enabled: s.enabled,
                };
                Step::Next(Edit::Writing, Action::SetState(Document::Settings(changed)))
            },
        },
        _ => edit_rest(state, event),
    }
}

/// Switching a room's picture on or off.
pub open spec fn wfrog_disable_enable_step(state: Edit, event: EventView, which: bool) -> StepView<
    Edit,
    (),
> {
    edit_step(state, event, with_enabled(which))
}

/// Runs the switching of a room's picture one step further.
pub fn wfrog_disable_enable(state: Edit, event: Event, which: bool) -> (r: Step<Edit, ()>)
    ensures
        r@ == wfrog_disable_enable_step(state, event@, which),
{
    match state {
        Edit::Reading => match lookup_settings(event) {
            Lookup::Failed(e) => Step::Done(Err(e)),
            Lookup::Absent => Step::Next(
                Edit::Notifying,
                Action::SendText(String::from_str(NOT_CONFIGURED)),
            ),
            Lookup::Found(s) => {
                let changed = WfrogSettings {
                    link: s.link,
                    text: s.text,
                    info: s.info,
                    enabled: which,
                };
                Step::Next(Edit::Writing, Action::SetState(Document::Settings(changed)))
            },
        },
        _ => edit_rest(state, event),
    }
}

/// The settings that a newly configured picture starts with: no caption,
/// switched on.
pub open spec fn fresh_settings(url: Seq<char>, info: ImageInfoView) -> WfrogSettingsView {
    WfrogSettingsView { link: url, text: Seq::empty(), info, enabled: true }
}

/// Configuring a room's picture: write fresh settings for it.
pub open spec fn wfrog_set_image_step(
    state: WriteStep,
    event: EventView,
    url: Seq<char>,
    info: ImageInfoView,
) -> StepView<WriteStep, ()> {
    match state {
        WriteStep::Start => StepView::Next(
            WriteStep::Writing,
            ActionView::SetState(DocumentView::Settings(fresh_settings(url, info))),
        ),
        WriteStep::Writing => StepView::Done(acknowledged(event)),
    }
}

/// Runs the configuring of a room's picture one step further.
pub fn wfrog_set_image(state: WriteStep, event: Event, url: &str, info: &ImageInfo) -> (r: Step<
    WriteStep,
    (),
>)
    ensures
        r@ == wfrog_set_image_step(state, event@, url@, info@),
{
    match state {
        WriteStep::Start => {
            let settings = WfrogSettings {
                link: String::from_str(url),
                text: String::new(),
                info: info.duplicate(),
                enabled: true,
            };
            Step::Next(WriteStep::Writing, Action::SetState(Document::Settings(settings)))
        },
        WriteStep::Writing => Step::Done(acknowledge(event)),
    }
}

/// A room in which a tick failed, and how.
#[derive(Debug, PartialEq, Eq)]
pub struct RoomFailure {
    pub room: String,
    pub error: TransportError,
}

/// What contracts see of a [`RoomFailure`].
pub struct RoomFailureView {
    pub room: Seq<char>,
    pub error: Seq<char>,
}

impl View for RoomFailure {
    type V = RoomFailureView;

    open spec fn view(&self) -> RoomFailureView {
        RoomFailureView { room: self.room@, error: self.error@ }
    }
}

/// The failures of one tick, in the order of the rooms.
#[derive(Debug, PartialEq, Eq)]
pub struct TickReport {
    pub failures: Vec<RoomFailure>,
}

impl View for TickReport {
    type V = Seq<RoomFailureView>;

    open spec fn view(&self) -> Seq<RoomFailureView> {
        Seq::new(self.failures@.len(), |i: int| self.failures@[i]@)
    }
}

/// Where a tick stands: the room it works in, by its position in the list
/// of rooms, how far it is there, and what failed in the rooms before.
#[derive(Debug, PartialEq, Eq)]
pub struct Tick {
    pub index: usize,
    pub room: RoomTick,
    pub report: TickReport,
}

/// What contracts see of a [`Tick`].
pub struct TickView {
    pub index: usize,
    pub room: RoomTickView,
    pub report: Seq<RoomFailureView>,
}

impl View for Tick {
    type V = TickView;

    open spec fn view(&self) -> TickView {
        TickView { index: self.index, room: self.room@, report: self.report@ }
    }
}

impl Tick {
    /// A tick before its first room.
    pub fn new() -> (r: Tick)
        ensures
            r@ == (TickView { index: 0, room: RoomTickView::Start, report: Seq::empty() }),
    {
        let r = Tick { index: 0, room: RoomTick::Start, report: TickReport { failures: Vec::new() } };
        assert(r.report@ =~= Seq::empty());
        r
    }
}

/// The report with the outcome of one more room: a failure is added under
/// the room's name, a success leaves it as it is.
pub open spec fn noted(
    report: Seq<RoomFailureView>,
    room: Seq<char>,
    outcome: Result<TickOutcome, Seq<char>>,
) -> Seq<RoomFailureView> {
    match outcome {
        Ok(_) => report,
        Err(e) => report.push(RoomFailureView { room, error: e }),
    }
}

/// A step of one room, as a step of the tick that is at that room. Where
/// the room is done and another follows, the tick takes that room's first
/// step at once: it asks for its trigger state.
pub open spec fn in_room(
    index: usize,
    report: Seq<RoomFailureView>,
    step: StepView<RoomTickView, TickOutcome>,
    rooms: Seq<Seq<char>>,
) -> StepView<TickView, Seq<RoomFailureView>> {
    match step {
        StepView::Next(s, a) => StepView::Next(TickView { index, room: s, report }, a),
        StepView::Done(outcome) => {
            let report = noted(report, rooms[index as int], outcome);
            if index + 1 < rooms.len() {
                StepView::Next(
                    TickView {
                        index: (index + 1) as usize,
                        room: RoomTickView::ReadingTrigger,
                        report,
                    },
                    ActionView::GetState(StateKey::WfrogState),
                )
            } else {
                StepView::Done(Ok(report))
            }
        },
    }
}

/// One tick over the rooms of the list, one after another. Each action is
/// meant for the room at the state's index. Whatever one room ends with, a
/// failure too, the tick goes on with the next room; it ends after the last
/// with the report of the failures, and never fails itself.
pub open spec fn wfrog_called_step(
    state: TickView,
    event: EventView,
    rooms: Seq<Seq<char>>,
    now: Timestamp,
) -> StepView<TickView, Seq<RoomFailureView>> {
    if state.index >= rooms.len() {
        StepView::Done(Ok(state.report))
    } else {
        in_room(
            state.index,
            state.report,
            wfrog_process_room_step(state.room, event, now),
            rooms,
        )
    }
}

/// Runs a tick one step further.
pub fn wfrog_called(state: Tick, event: Event, rooms: &Vec<String>, now: Timestamp) -> (r: Step<
    Tick,
    TickReport,
>)
    ensures
        r@ == wfrog_called_step(state@, event@, views(rooms@), now),
        !(r matches Step::Done(Err(_))),
{
    let index = state.index;
    let mut report = state.report;
    if index >= rooms.len() {
        return Step::Done(Ok(report));
    }
    match wfrog_process_room(state.room, event, now) {
        Step::Next(s, a) => Step::Next(Tick { index, room: s, report }, a),
        Step::Done(outcome) => {
            let ghost before = report@;
            match outcome {
                Ok(_) => {},
                Err(e) => {
                    let failure = RoomFailure { room: rooms[index].clone(), error: e };
                    report.failures.push(failure);
                    assert(report@ =~= before.push(failure@));
                },
            }
            if index + 1 < rooms.len() {
                Step::Next(
                    Tick { index: index + 1, room: RoomTick::ReadingTrigger, report },
                    Action::GetState(StateKey::WfrogState),
                )
            } else {
                Step::Done(Ok(report))
            }
        },
    }
}

/// A failure in one room does not keep the tick from the next: whatever a
/// room's step ends with, the tick that has rooms left asks for the next
/// room's trigger state, with the failure noted.
pub proof fn lemma_tick_moves_on(
    state: TickView,
    event: EventView,
    rooms: Seq<Seq<char>>,
    now: Timestamp,
    e: Seq<char>,
)
    requires
        state.index + 1 < rooms.len(),
        wfrog_process_room_step(state.room, event, now) == StepView::<
            RoomTickView,
            TickOutcome,
        >::Done(Err(e)),
    ensures
        wfrog_called_step(state, event, rooms, now) == StepView::<
            TickView,
            Seq<RoomFailureView>,
        >::Next(
            TickView {
                index: (state.index + 1) as usize,
                room: RoomTickView::ReadingTrigger,
                report: state.report.push(
                    RoomFailureView { room: rooms[state.index as int], error: e },
                ),
            },
            ActionView::GetState(StateKey::WfrogState),
        ),
{
}

/// The period of the scheduler's timer, in milliseconds.
pub const TICK_MILLIS: u64 = 60_000;

/// The scheduler's registry of the rooms it ticks in: every room that was
/// observed, once, in the order of first observation.
#[derive(Debug)]
pub struct Scheduler {
    rooms: Vec<String>,
}

impl View for Scheduler {
    type V = Seq<Seq<char>>;

    closed spec fn view(&self) -> Seq<Seq<char>> {
        views(self.rooms@)
    }
}

impl Scheduler {
    #[verifier::type_invariant]
    spec fn no_room_twice(self) -> bool {
        views(self.rooms@).no_duplicates()
    }

    /// The rooms to tick in. None stands twice.
    pub fn rooms(&self) -> (r: &Vec<String>)
        ensures
            views(r@) == self@,
            self@.no_duplicates(),
    {
        proof {
            use_type_invariant(self);
        }
        &self.rooms
    }

    /// The period of the timer that drives the ticks, in milliseconds.
    pub fn period_millis(&self) -> (r: u64)
        ensures
            r == TICK_MILLIS,
    {
        TICK_MILLIS
    }

    /// Whether the room is in the registry.
    pub fn tracks(&self, room: &str) -> (r: bool)
        ensures
            r == self@.contains(room@),
    {
        let mut i: usize = 0;
        while i < self.rooms.len()
            invariant
                i <= self.rooms.len(),
                forall|k: int| 0 <= k < i ==> views(self.rooms@)[k] != room@,
            decreases self.rooms.len() - i,
        {
            if same_text(self.rooms[i].as_str(), room) {
                assert(views(self.rooms@)[i as int] == room@);
                return true;
            }
            i = i + 1;
        }
        false
    }

    /// Takes note of a room: a new one joins the registry at its end, a known
    /// one changes nothing.
    pub fn observe(self, room: &str) -> (r: Scheduler)
        ensures
            r@ == if self@.contains(room@) {
                self@
            } else {
                self@.push(room@)
            },
    {
        if self.tracks(room) {
            self
        } else {
            proof {
                use_type_invariant(&self);
            }
            let mut rooms = self.rooms;
            let owned = String::from_str(room);
            proof {
                crate::text::lemma_views_push(rooms@, owned);
            }
            rooms.push(owned);
            Scheduler { rooms }
        }
    }
}

/// Sets the scheduler up: no room is known yet, and the timer's period is
/// one minute.
pub fn wfrog_init() -> (r: Scheduler)
    ensures
        r@.len() == 0,
{
    let r = Scheduler { rooms: Vec::new() };
    r
}

} // verus!
