//! A room as the engine's contracts see it: what it stores, who has which
//! power level, what was sent to it; and what holds of the handlers when
//! such a room answers their actions.

use crate::bot::{
    bumped, content_command, count_line, handle_event_step, process_command_step, update_line,
    DispatchView, HandledView, InboundView, IncomingView, Outcome, REFUSAL,
};
use crate::command::CommandView;
use crate::effect::{ActionView, EventView, StepView, WriteStep};
use crate::failure::FailureView;
use crate::lolcount::{get_lols_step, set_lols_step, Lolcount, LolsRead};
use crate::media::ImageMessageView;
use crate::permission::{required_level, OVERRIDE_LEVEL};
use crate::state::{is_not_found, DocumentView, StateKey};
use crate::time::{day_of, supported, Timestamp};
use crate::wfrog::{
    picture_of, wfrog_process_room_step, RoomTickView, TickOutcome, WfrogSettingsView, WfrogState,
};
use vstd::prelude::*;

verus! {

/// A message that a room received.
pub enum Message {
    Text(Seq<char>),
    Image(ImageMessageView),
}

/// A room of the chat service, as far as the engine depends on it.
pub struct Room {
    /// The documents of its state, by key.
    pub store: Map<StateKey, DocumentView>,
    /// The power levels that were given to single users.
    pub levels: Map<Seq<char>, u32>,
    /// The power level of everyone else.
    pub default_level: u32,
    /// The messages it received, oldest first.
    pub sent: Seq<Message>,
}

/// The failure with which a room answers the read of a document that was
/// never written.
pub open spec fn absent() -> FailureView {
    FailureView { errcode: Some("M_NOT_FOUND"@), description: "Event not found."@ }
}

impl Room {
    /// Every document is kept under its own key.
    pub open spec fn wf(self) -> bool {
        forall|k: StateKey| #[trigger] self.store.contains_key(k) ==> self.store[k].key() == k
    }

    /// A user's power level.
    pub open spec fn level_of(self, user: Seq<char>) -> u32 {
        if self.levels.contains_key(user) {
            self.levels[user]
        } else {
            self.default_level
        }
    }

    /// The laughter count that the room stands at.
    pub open spec fn lols(self) -> u32 {
        match self.store.get(StateKey::Lolcount) {
            Some(DocumentView::Lolcount(l)) => l.lol_count,
            _ => 0,
        }
    }

    /// The settings of the daily picture, where the room has any.
    pub open spec fn settings(self) -> Option<WfrogSettingsView> {
        match self.store.get(StateKey::WfrogSettings) {
            Some(DocumentView::Settings(s)) => Some(s),
            _ => None,
        }
    }

    /// When the daily picture was last posted; the start of the epoch where
    /// it never was.
    pub open spec fn last_posted(self) -> Timestamp {
        match self.store.get(StateKey::WfrogState) {
            Some(DocumentView::Trigger(t)) => t.last,
            _ => Timestamp { secs: 0, nanos: 0 },
        }
    }

    /// The room after it received one more message.
    pub open spec fn with_message(self, m: Message) -> Room {
        Room { sent: self.sent.push(m), ..self }
    }

    /// The room after a document was written.
    pub open spec fn with_document(self, d: DocumentView) -> Room {
        Room { store: self.store.insert(d.key(), d), ..self }
    }

    /// How a room that does not fail answers an action, and what it is
    /// afterwards. It has no answer to what is asked of the web.
    pub open spec fn answer(self, action: ActionView) -> Option<(Room, EventView)> {
        match action {
            ActionView::GetState(k) => Some(
                (
                    self,
                    if self.store.contains_key(k) {
                        EventView::State(self.store[k])
                    } else {
                        EventView::Failed(absent())
                    },
                ),
            ),
            ActionView::SetState(d) => Some((self.with_document(d), EventView::Completed)),
            ActionView::QueryLevel(user) => Some((self, EventView::Level(self.level_of(user)))),
            ActionView::SendText(t) => Some(
                (self.with_message(Message::Text(t)), EventView::Completed),
            ),
            ActionView::SendImage(m) => Some(
                (self.with_message(Message::Image(m)), EventView::Completed),
            ),
            ActionView::SendReceipt(_) => Some((self, EventView::Completed)),
            _ => None,
        }
    }
}

/// How a handler ends and what the room is afterwards, when the room
/// answers each of its actions; `None` where an action has no answer from
/// the room, or more than `fuel` actions are asked for.
pub open spec fn run<S, T>(
    step: spec_fn(S, EventView) -> StepView<S, T>,
    state: S,
    event: EventView,
    room: Room,
    fuel: nat,
) -> Option<(Result<T, Seq<char>>, Room)>
    decreases fuel,
{
    match step(state, event) {
        StepView::Done(r) => Some((r, room)),
        StepView::Next(s, a) => if fuel == 0 {
            None
        } else {
            match room.answer(a) {
                Some((after, reply)) => run(step, s, reply, after, (fuel - 1) as nat),
                None => None,
            }
        },
    }
}

/// The reading of the counter in a room.
pub open spec fn read_lols(room: Room) -> Option<(Result<u32, Seq<char>>, Room)> {
    run(|s: LolsRead, e: EventView| get_lols_step(s, e), LolsRead::Start, EventView::Begin, room, 8)
}

/// The writing of the count `n` in a room.
pub open spec fn write_lols(room: Room, n: u32) -> Option<(Result<(), Seq<char>>, Room)> {
    run(
        |s: WriteStep, e: EventView| set_lols_step(s, e, n),
        WriteStep::Start,
        EventView::Begin,
        room,
        8,
    )
}

/// The dispatch of a command from a sender in a room.
pub open spec fn dispatched(room: Room, sender: Seq<char>, cmd: CommandView) -> Option<
    (Result<Outcome, Seq<char>>, Room),
> {
    run(
        |s: DispatchView, e: EventView| process_command_step(s, e, sender, cmd),
        DispatchView::Start,
        EventView::Begin,
        room,
        8,
    )
}

/// One room's share of a tick at the time `now`.
pub open spec fn ticked(room: Room, now: Timestamp) -> Option<
    (Result<TickOutcome, Seq<char>>, Room),
> {
    run(
        |s: RoomTickView, e: EventView| wfrog_process_room_step(s, e, now),
        RoomTickView::Start,
        EventView::Begin,
        room,
        8,
    )
}

/// Reading the counter yields the room's count and leaves the room as it
/// is: so a second reading with no write in between yields the same.
pub proof fn lemma_read_lols(room: Room)
    requires
        room.wf(),
    ensures
        read_lols(room) == Some((Ok::<u32, Seq<char>>(room.lols()), room)),
{
    reveal_with_fuel(run, 3);
    reveal_strlit("M_NOT_FOUND");
}

/// A room without the counter's document reads as 0, with no error.
pub proof fn lemma_absent_reads_zero(room: Room)
    requires
        !room.store.contains_key(StateKey::Lolcount),
    ensures
        read_lols(room) == Some((Ok::<u32, Seq<char>>(0u32), room)),
{
    reveal_with_fuel(run, 3);
}

/// A read that fails is 0 exactly where the store said not found; any
/// other failure is an error that carries the failure's description.
pub proof fn lemma_failed_read(f: FailureView)
    ensures
        get_lols_step(LolsRead::Reading, EventView::Failed(f)) == StepView::<
            LolsRead,
            u32,
        >::Done(
            if is_not_found(f) {
                Ok(0u32)
            } else {
                Err(f.description)
            },
        ),
{
}

/// After the count `n` was written, the counter reads as `n`.
pub proof fn lemma_write_then_read(room: Room, n: u32)
    requires
        room.wf(),
    ensures
        write_lols(room, n) matches Some((Ok(_), after)) && after.wf() && after.lols() == n
            && read_lols(after) == Some((Ok::<u32, Seq<char>>(n), after)),
{
    reveal_with_fuel(run, 3);
    let after = room.with_document(DocumentView::Lolcount(Lolcount { lol_count: n }));
    assert(write_lols(room, n) == Some((Ok::<(), Seq<char>>(()), after)));
    lemma_read_lols(after);
}

/// The guard stands before every command: a sender whose level is below
/// what the command asks for is told so, and nothing else changes in the
/// room.
pub proof fn lemma_denied_changes_nothing(room: Room, sender: Seq<char>, cmd: CommandView)
    requires
        required_level(cmd) > room.level_of(sender),
    ensures
        dispatched(room, sender, cmd) == Some(
            (Ok::<Outcome, Seq<char>>(Outcome::Denied), room.with_message(Message::Text(REFUSAL@))),
        ),
        room.with_message(Message::Text(REFUSAL@)).store == room.store,
{
    reveal_with_fuel(run, 4);
}

/// A sender whose level suffices is let through to the command's handler.
pub proof fn lemma_allowed_is_carried_out(level: u32, sender: Seq<char>, cmd: CommandView)
    requires
        required_level(cmd) <= level,
    ensures
        process_command_step(DispatchView::Authorizing, EventView::Level(level), sender, cmd)
            == crate::bot::begun(cmd),
{
}

/// An overwrite of the counter by a sender of sufficient level: the store
/// holds the new count, and the room receives the confirmation that names
/// it.
pub proof fn lemma_allowed_overwrite(room: Room, sender: Seq<char>, n: u32)
    requires
        room.level_of(sender) >= OVERRIDE_LEVEL,
    ensures
        dispatched(room, sender, CommandView::SetLolcount(n)) == Some(
            (
                Ok::<Outcome, Seq<char>>(Outcome::Executed),
                room.with_document(DocumentView::Lolcount(Lolcount { lol_count: n })).with_message(
                    Message::Text(update_line(n)),
                ),
            ),
        ),
{
    reveal_with_fuel(run, 5);
}

/// The guard keeps no level: once a sender's level was raised, the very
/// next dispatch goes by the new one.
pub proof fn lemma_level_change_takes_effect(room: Room, sender: Seq<char>, n: u32, raised: u32)
    requires
        room.level_of(sender) < OVERRIDE_LEVEL <= raised,
    ensures
        ({
            let refused = room.with_message(Message::Text(REFUSAL@));
            let promoted = Room { levels: refused.levels.insert(sender, raised), ..refused };
            &&& dispatched(room, sender, CommandView::SetLolcount(n)) == Some(
                (Ok::<Outcome, Seq<char>>(Outcome::Denied), refused),
            )
            &&& dispatched(promoted, sender, CommandView::SetLolcount(n)) matches Some(
                (Ok(Outcome::Executed), after),
            ) && after.lols() == n
        }),
{
    let refused = room.with_message(Message::Text(REFUSAL@));
    let promoted = Room { levels: refused.levels.insert(sender, raised), ..refused };
    lemma_denied_changes_nothing(room, sender, CommandView::SetLolcount(n));
    lemma_allowed_overwrite(promoted, sender, n);
}

/// A laugh raises the counter by one, or leaves it where it cannot rise,
/// and the room is told the new count: so the count never falls but by an
/// overwrite.
pub proof fn lemma_laugh_counts(room: Room, sender: Seq<char>)
    requires
        room.wf(),
    ensures
        dispatched(room, sender, CommandView::IncrementLolcount) == Some(
            (
                Ok::<Outcome, Seq<char>>(Outcome::Executed),
                room.with_document(
                    DocumentView::Lolcount(Lolcount { lol_count: bumped(room.lols()) }),
                ).with_message(Message::Text(count_line(bumped(room.lols())))),
            ),
        ),
        bumped(room.lols()) >= room.lols(),
{
    reveal_with_fuel(run, 6);
    reveal_strlit("M_NOT_FOUND");
}

/// Asking for the counter tells the room its count and changes nothing
/// else.
pub proof fn lemma_count_is_reported(room: Room, sender: Seq<char>)
    requires
        room.wf(),
    ensures
        dispatched(room, sender, CommandView::GetLolcount) == Some(
            (
                Ok::<Outcome, Seq<char>>(Outcome::Executed),
                room.with_message(Message::Text(count_line(room.lols()))),
            ),
        ),
{
    reveal_with_fuel(run, 5);
    reveal_strlit("M_NOT_FOUND");
}

/// How the scheduler finds a room at a tick.
pub enum SchedulerState {
    /// The room has no settings.
    Unconfigured,
    /// The room has settings, switched off.
    Disabled,
    /// The picture is due: it was not posted on the tick's calendar day.
    Armed,
    /// The picture was posted on the tick's calendar day.
    Fired,
}

/// The scheduler's state in a room at the time `now`.
pub open spec fn scheduler_state(room: Room, now: Timestamp) -> SchedulerState {
    match room.settings() {
        None => SchedulerState::Unconfigured,
        Some(s) => if !s.enabled {
            SchedulerState::Disabled
        } else if day_of(room.last_posted().secs) == day_of(now.secs) {
            SchedulerState::Fired
        } else {
            SchedulerState::Armed
        },
    }
}

/// The room after the daily picture was posted at the time `now`: it
/// received the caption, if there is one, then the picture, and its trigger
/// state holds `now`.
pub open spec fn posted(room: Room, s: WfrogSettingsView, now: Timestamp) -> Room {
    let captioned = if s.text.len() > 0 {
        room.with_message(Message::Text(s.text))
    } else {
        room
    };
    captioned.with_message(Message::Image(picture_of(s))).with_document(
        DocumentView::Trigger(WfrogState { last: now }),
    )
}

/// What a tick reports of a room. The day is looked at before the
/// settings, so a room that saw a post today is reported as such whatever
/// its settings are now.
pub open spec fn tick_outcome(room: Room, now: Timestamp) -> TickOutcome {
    if day_of(room.last_posted().secs) == day_of(now.secs) {
        TickOutcome::AlreadyPosted
    } else {
        match room.settings() {
            None => TickOutcome::Unconfigured,
            Some(s) => if s.enabled {
                TickOutcome::Posted
            } else {
                TickOutcome::Disabled
            },
        }
    }
}

/// What a tick does in a room: in an armed room, and in no other, it posts
/// the picture and records the tick time; in every other room it changes
/// nothing and sends nothing.
pub proof fn lemma_tick_posts_only_when_armed(room: Room, now: Timestamp)
    requires
        room.wf(),
        supported(now.secs),
        supported(room.last_posted().secs),
    ensures
        tick_outcome(room, now) is Posted <==> scheduler_state(room, now) is Armed,
        ticked(room, now) == Some(
            (
                Ok::<TickOutcome, Seq<char>>(tick_outcome(room, now)),
                if scheduler_state(room, now) is Armed {
                    posted(room, room.settings().unwrap(), now)
                } else {
                    room
                },
            ),
        ),
{
    reveal_with_fuel(run, 7);
    reveal_strlit("M_NOT_FOUND");
}

/// At most one post per calendar day, and none skipped: after the post of
/// a tick, a second tick on the same day sends nothing, and a tick on
/// another day posts again.
pub proof fn lemma_one_post_per_day(room: Room, first: Timestamp, second: Timestamp)
    requires
        room.wf(),
        supported(first.secs),
        supported(second.secs),
        supported(room.last_posted().secs),
        scheduler_state(room, first) is Armed,
    ensures
        ({
            let s = room.settings().unwrap();
            let after = posted(room, s, first);
            &&& ticked(room, first) == Some(
                (Ok::<TickOutcome, Seq<char>>(TickOutcome::Posted), after),
            )
            &&& day_of(second.secs) == day_of(first.secs) ==> ticked(after, second) == Some(
                (Ok::<TickOutcome, Seq<char>>(TickOutcome::AlreadyPosted), after),
            )
            &&& day_of(second.secs) != day_of(first.secs) ==> ticked(after, second) == Some(
                (Ok::<TickOutcome, Seq<char>>(TickOutcome::Posted), posted(after, s, second)),
            )
        }),
{
    let s = room.settings().unwrap();
    let after = posted(room, s, first);
    lemma_tick_posts_only_when_armed(room, first);
    assert(after.wf());
    assert(after.last_posted() == first);
    assert(after.settings() == Some(s));
    lemma_tick_posts_only_when_armed(after, second);
}

/// The time of the last post never goes back while the ticks do not: after
/// a tick that is not earlier than the last post, the last post is not
/// earlier than it was.
pub proof fn lemma_last_post_never_goes_back(room: Room, now: Timestamp)
    requires
        room.wf(),
        supported(now.secs),
        supported(room.last_posted().secs),
        room.last_posted().secs <= now.secs,
    ensures
        ticked(room, now) matches Some((_, after)) && room.last_posted().secs
            <= after.last_posted().secs,
{
    lemma_tick_posts_only_when_armed(room, now);
}

/// The handling of an inbound event by the bot `me` in a room.
pub open spec fn delivered(me: Seq<char>, room: Room, incoming: IncomingView) -> Option<
    (Result<HandledView, Seq<char>>, Room),
> {
    run(
        |s: InboundView, e: EventView| handle_event_step(me, s, e, incoming),
        InboundView::Start,
        EventView::Begin,
        room,
        12,
    )
}

/// The bot's own events change nothing.
pub proof fn lemma_own_events_are_ignored(me: Seq<char>, room: Room, incoming: IncomingView)
    requires
        incoming.sender == me,
    ensures
        delivered(me, room, incoming) == Some(
            (Ok::<HandledView, Seq<char>>(HandledView::Ignored), room),
        ),
{
    reveal_with_fuel(run, 2);
}

/// Ordinary chat changes nothing.
pub proof fn lemma_chat_is_ignored(me: Seq<char>, room: Room, incoming: IncomingView)
    requires
        incoming.sender != me,
        content_command(incoming.content) is None,
    ensures
        delivered(me, room, incoming) == Some(
            (Ok::<HandledView, Seq<char>>(HandledView::Ignored), room),
        ),
{
    reveal_with_fuel(run, 3);
}

/// An event that holds a command from a sender below the command's level:
/// the room receives the refusal, and its state stays as it is.
pub proof fn lemma_denied_event(me: Seq<char>, room: Room, incoming: IncomingView, cmd: CommandView)
    requires
        incoming.sender != me,
        content_command(incoming.content) == Some(cmd),
        required_level(cmd) > room.level_of(incoming.sender),
    ensures
        delivered(me, room, incoming) == Some(
            (
                Ok::<HandledView, Seq<char>>(HandledView::Dispatched(Outcome::Denied)),
                room.with_message(Message::Text(REFUSAL@)),
            ),
        ),
        room.with_message(Message::Text(REFUSAL@)).lols() == room.lols(),
{
    reveal_with_fuel(run, 5);
}

/// An event that holds an overwrite of the counter from a sender of
/// sufficient level: the store holds the new count, and the room receives
/// the confirmation that names it.
pub proof fn lemma_overwrite_event(me: Seq<char>, room: Room, incoming: IncomingView, n: u32)
    requires
        incoming.sender != me,
        content_command(incoming.content) == Some(CommandView::SetLolcount(n)),
        room.level_of(incoming.sender) >= OVERRIDE_LEVEL,
    ensures
        delivered(me, room, incoming) == Some(
            (
                Ok::<HandledView, Seq<char>>(HandledView::Dispatched(Outcome::Executed)),
                room.with_document(DocumentView::Lolcount(Lolcount { lol_count: n })).with_message(
                    Message::Text(update_line(n)),
                ),
            ),
        ),
{
    reveal_with_fuel(run, 6);
}

/// The count never falls but by an overwrite: whatever another command
/// ends with in a room, the room's count is then at least what it was.
pub proof fn lemma_count_never_falls(room: Room, sender: Seq<char>, cmd: CommandView)
    requires
        room.wf(),
        !(cmd is SetLolcount),
    ensures
        dispatched(room, sender, cmd) matches Some((_, after)) ==> after.lols() >= room.lols(),
{
    reveal_with_fuel(run, 9);
    reveal_strlit("M_NOT_FOUND");
}

} // verus!
