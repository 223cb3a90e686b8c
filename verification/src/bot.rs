//! The dispatcher: from a classified command through the permission guard to
//! the handler that carries it out.

use crate::command::{
    classify, command_of, command_view, is_laughter, laughs, picture_command, Command, CommandView,
    SENTINEL,
};
use crate::effect::{
    acknowledge, acknowledged, refuse, refused, Action, ActionView, Event, EventView, Step, StepView,
    WriteStep,
};
use crate::failure::{render_error, rendered_error, unexpected_reply, TransportError};
use crate::media::{ImageInfo, ImageInfoView};
use crate::inspirobot::{inspirobot, inspirobot_step, Inspiration, InspirationView};
use crate::lolcount::{get_lols, get_lols_step, set_lols, set_lols_step, LolsRead};
use crate::permission::{authorize, decided, Decision};
use crate::text::{decimal, decimal_text, same_text};
use crate::wfrog::{
    wfrog_disable_enable, wfrog_disable_enable_step, wfrog_explain_state,
    wfrog_explain_state_step, wfrog_set_image, wfrog_set_image_step, wfrog_set_text,
    wfrog_set_text_step, Edit, Explain, ExplainView,
};
use crate::xkcd::{
    fetch_comic, fetch_comic_step, send_comic, send_comic_step, Comic, ComicFetch, ComicFetchView,
    ComicSend, ComicSendView, ComicView,
};
use vstd::prelude::*;

verus! {

/// The answer to a ping.
pub const PONG: &'static str = "Pong!";

/// What a sender without the level for a command is told.
pub const REFUSAL: &'static str = "You do not have the power level required to do that.";

/// What the sender of a command with a malformed argument is told.
pub const PARSE_FAILED: &'static str = "Failed to parse command.";

/// How a dispatch ended, other than with an error.
#[derive(Clone, Copy, Debug, PartialEq, Eq, Structural)]
pub enum Outcome {
    /// The command was carried out.
    Executed,
    /// The sender lacked the level; the room was told so.
    Denied,
    /// The command had a malformed argument; the room was told so.
    ParseFailed,
}

impl View for Outcome {
    type V = Outcome;

    open spec fn view(&self) -> Outcome {
        *self
    }
}

/// Where the dispatch of a command stands.
#[derive(Debug, PartialEq, Eq)]
pub enum Dispatch {
    Start,
    Authorizing,
    /// The last message is on its way; the dispatch then ends as said.
    Telling(Outcome),
    FetchingComic(ComicFetch),
    PostingComic(ComicSend, Comic),
    Inspiring(Inspiration),
    /// The counter is being read to be reported.
    ReadingCount(LolsRead),
    /// The counter is being read to be raised.
    Bumping(LolsRead),
    /// The counter is being written with the given count.
    Storing(WriteStep, u32),
    Explaining(Explain),
    Editing(Edit),
    SettingImage(WriteStep),
}

/// What contracts see of a [`Dispatch`].
pub enum DispatchView {
    Start,
    Authorizing,
    Telling(Outcome),
    FetchingComic(ComicFetchView),
    PostingComic(ComicSendView, ComicView),
    Inspiring(InspirationView),
    ReadingCount(LolsRead),
    Bumping(LolsRead),
    Storing(WriteStep, u32),
    Explaining(ExplainView),
    Editing(Edit),
    SettingImage(WriteStep),
}

impl View for Dispatch {
    type V = DispatchView;

    open spec fn view(&self) -> DispatchView {
        match *self {
            Dispatch::Start => DispatchView::Start,
            Dispatch::Authorizing => DispatchView::Authorizing,
            Dispatch::Telling(o) => DispatchView::Telling(o),
            Dispatch::FetchingComic(s) => DispatchView::FetchingComic(s@),
            Dispatch::PostingComic(s, c) => DispatchView::PostingComic(s@, c@),
            Dispatch::Inspiring(s) => DispatchView::Inspiring(s@),
            Dispatch::ReadingCount(s) => DispatchView::ReadingCount(s),
            Dispatch::Bumping(s) => DispatchView::Bumping(s),
            Dispatch::Storing(s, n) => DispatchView::Storing(s, n),
            Dispatch::Explaining(s) => DispatchView::Explaining(s@),
            Dispatch::Editing(s) => DispatchView::Editing(s),
            Dispatch::SettingImage(s) => DispatchView::SettingImage(s),
        }
    }
}

/// A step of the dispatch.
pub type Turn = StepView<DispatchView, Outcome>;

/// The message that reports the counter.
pub open spec fn count_line(n: u32) -> Seq<char> {
    "lolcount: "@ + decimal(n as nat)
}

/// The message that confirms an overwritten counter.
pub open spec fn update_line(n: u32) -> Seq<char> {
    "lolcount updated - new value: "@ + decimal(n as nat)
}

/// The count after one more laugh. It stays where it cannot rise.
pub open spec fn bumped(n: u32) -> u32 {
    if n < u32::MAX {
        (n + 1) as u32
    } else {
        n
    }
}

/// The message that follows a write of the counter: the confirmation for
/// an overwrite, the count for a laugh.
pub open spec fn stored_line(cmd: CommandView, n: u32) -> Seq<char> {
    match cmd {
        CommandView::SetLolcount(_) => update_line(n),
        _ => count_line(n),
    }
}

/// The end of a dispatch with one last message.
pub open spec fn told(text: Seq<char>, outcome: Outcome) -> Turn {
    StepView::Next(DispatchView::Telling(outcome), ActionView::SendText(text))
}

/// A handler's step as a step of the dispatch: the handler's next state
/// wrapped, its result handed to what comes after it, its error handed on.
pub open spec fn carried<S, T>(
    step: StepView<S, T>,
    wrap: spec_fn(S) -> DispatchView,
    then: spec_fn(T) -> Turn,
) -> Turn {
    match step {
        StepView::Next(s, a) => StepView::Next(wrap(s), a),
        StepView::Done(Ok(t)) => then(t),
        StepView::Done(Err(e)) => StepView::Done(Err(e)),
    }
}

/// The end of a dispatch whose handler has said all there is to say.
pub open spec fn executed<T>() -> spec_fn(T) -> Turn {
    |t: T| StepView::Done(Ok(Outcome::Executed))
}

/// A step of the posting of the comic `c`.
pub open spec fn posting(step: StepView<ComicSendView, ()>, c: ComicView) -> Turn {
    carried(step, |s: ComicSendView| DispatchView::PostingComic(s, c), executed())
}

/// A step of the writing of the count `n`: once written, the room is told.
pub open spec fn storing(step: StepView<WriteStep, ()>, n: u32, cmd: CommandView) -> Turn {
    carried(
        step,
        |s: WriteStep| DispatchView::Storing(s, n),
        |t: ()| told(stored_line(cmd, n), Outcome::Executed),
    )
}

/// The state in which the handler of a command starts; `None` for the
/// commands that are answered with one message.
pub open spec fn entry(cmd: CommandView) -> Option<DispatchView> {
    match cmd {
        CommandView::Ping => None,
        CommandView::ParseFail => None,
        CommandView::Comic(_) => Some(DispatchView::FetchingComic(ComicFetchView::Start)),
        CommandView::Inspirobot => Some(DispatchView::Inspiring(InspirationView::Start)),
        CommandView::GetLolcount => Some(DispatchView::ReadingCount(LolsRead::Start)),
        CommandView::IncrementLolcount => Some(DispatchView::Bumping(LolsRead::Start)),
        CommandView::SetLolcount(n) => Some(DispatchView::Storing(WriteStep::Start, n)),
        CommandView::WfrogExplain => Some(DispatchView::Explaining(ExplainView::Start)),
        CommandView::WfrogSetText(_) => Some(DispatchView::Editing(Edit::Start)),
        CommandView::WfrogEnable(_) => Some(DispatchView::Editing(Edit::Start)),
        CommandView::WfrogSetImage(_, _) => Some(DispatchView::SettingImage(WriteStep::Start)),
    }
}

/// A step of the handler that carries a command out. A state that belongs
/// to another command's handler ends the dispatch with an error.
pub open spec fn handled(state: DispatchView, event: EventView, cmd: CommandView) -> Turn {
    match state {
        DispatchView::FetchingComic(s) => match cmd {
            CommandView::Comic(n) => carried(
                fetch_comic_step(s, event, n),
                |s: ComicFetchView| DispatchView::FetchingComic(s),
                |c: ComicView| posting(send_comic_step(ComicSendView::Start, EventView::Begin, c), c),
            ),
            _ => StepView::Done(Err(unexpected_reply())),
        },
        DispatchView::PostingComic(s, c) => posting(send_comic_step(s, event, c), c),
        DispatchView::Inspiring(s) => carried(
            inspirobot_step(s, event),
            |s: InspirationView| DispatchView::Inspiring(s),
            executed(),
        ),
        DispatchView::ReadingCount(s) => carried(
            get_lols_step(s, event),
            |s: LolsRead| DispatchView::ReadingCount(s),
            |n: u32| told(count_line(n), Outcome::Executed),
        ),
        DispatchView::Bumping(s) => carried(
            get_lols_step(s, event),
            |s: LolsRead| DispatchView::Bumping(s),
            |n: u32| storing(set_lols_step(WriteStep::Start, EventView::Begin, bumped(n)), bumped(n), cmd),
        ),
        DispatchView::Storing(s, n) => storing(set_lols_step(s, event, n), n, cmd),
        DispatchView::Explaining(s) => carried(
            wfrog_explain_state_step(s, event),
            |s: ExplainView| DispatchView::Explaining(s),
            executed(),
        ),
        DispatchView::Editing(s) => match cmd {
            CommandView::WfrogSetText(text) => carried(
                wfrog_set_text_step(s, event, text),
                |s: Edit| DispatchView::Editing(s),
                executed(),
            ),
            CommandView::WfrogEnable(which) => carried(
                wfrog_disable_enable_step(s, event, which),
                |s: Edit| DispatchView::Editing(s),
                executed(),
            ),
            _ => StepView::Done(Err(unexpected_reply())),
        },
        DispatchView::SettingImage(s) => match cmd {
            CommandView::WfrogSetImage(url, info) => carried(
                wfrog_set_image_step(s, event, url, info),
                |s: WriteStep| DispatchView::SettingImage(s),
                executed(),
            ),
            _ => StepView::Done(Err(unexpected_reply())),
        },
        _ => StepView::Done(Err(unexpected_reply())),
    }
}

/// The first step of carrying a command out.
pub open spec fn begun(cmd: CommandView) -> Turn {
    match cmd {
        CommandView::Ping => told(PONG@, Outcome::Executed),
        CommandView::ParseFail => told(PARSE_FAILED@, Outcome::ParseFailed),
        _ => handled(entry(cmd).unwrap(), EventView::Begin, cmd),
    }
}

/// The dispatch of a command: ask for the sender's current power level,
/// then let the guard decide. A denied sender is told so and nothing else
/// happens; an allowed command is carried out. The level is asked for anew
/// in every dispatch, and no state of the dispatch holds one.
pub open spec fn process_command_step(
    state: DispatchView,
    event: EventView,
    sender: Seq<char>,
    cmd: CommandView,
) -> Turn {
    match state {
        DispatchView::Start => StepView::Next(
            DispatchView::Authorizing,
            ActionView::QueryLevel(sender),
        ),
        DispatchView::Authorizing => match event {
            EventView::Level(level) => match decided(level, cmd) {
                Decision::Denied => told(REFUSAL@, Outcome::Denied),
                Decision::Allowed => begun(cmd),
            },
            _ => StepView::Done(Err(refused(event))),
        },
        DispatchView::Telling(outcome) => match acknowledged(event) {
            Ok(_) => StepView::Done(Ok(outcome)),
            Err(e) => StepView::Done(Err(e)),
        },
        _ => handled(state, event, cmd),
    }
}

/// The engine of one bot account.
#[derive(Debug)]
pub struct XkcdBot {
    /// The bot's own user identifier: its own messages are no commands.
    pub user_id: String,
}

fn tell(text: String, outcome: Outcome) -> (r: Step<Dispatch, Outcome>)
    ensures
        r@ == told(text@, outcome),
{
    Step::Next(Dispatch::Telling(outcome), Action::SendText(text))
}

fn post(step: Step<ComicSend, ()>, c: Comic) -> (r: Step<Dispatch, Outcome>)
    ensures
        r@ == posting(step@, c@),
{
    match step {
        Step::Next(s, a) => Step::Next(Dispatch::PostingComic(s, c), a),
        Step::Done(Ok(_)) => Step::Done(Ok(Outcome::Executed)),
        Step::Done(Err(e)) => Step::Done(Err(e)),
    }
}

fn store(step: Step<WriteStep, ()>, n: u32, cmd: &Command) -> (r: Step<Dispatch, Outcome>)
    ensures
        r@ == storing(step@, n, cmd@),
{
    match step {
        Step::Next(s, a) => Step::Next(Dispatch::Storing(s, n), a),
        Step::Done(Ok(_)) => {
            let mut line = match cmd {
                Command::SetLolcount(_) => String::from_str("lolcount updated - new value: "),
                _ => String::from_str("lolcount: "),
            };
            line.append(decimal_text(n).as_str());
            tell(line, Outcome::Executed)
        },
        Step::Done(Err(e)) => Step::Done(Err(e)),
    }
}

fn edit(step: Step<Edit, ()>) -> (r: Step<Dispatch, Outcome>)
    ensures
        r@ == carried(step@, |s: Edit| DispatchView::Editing(s), executed()),
{
    match step {
        Step::Next(s, a) => Step::Next(Dispatch::Editing(s), a),
        Step::Done(Ok(_)) => Step::Done(Ok(Outcome::Executed)),
        Step::Done(Err(e)) => Step::Done(Err(e)),
    }
}

/// Raises a count by one laugh.
pub fn bump(n: u32) -> (r: u32)
    ensures
        r == bumped(n),
        r >= n,
{
    if n < u32::MAX {
        n + 1
    } else {
        n
    }
}

fn handle(state: Dispatch, event: Event, cmd: &Command) -> (r: Step<Dispatch, Outcome>)
    ensures
        r@ == handled(state@, event@, cmd@),
{
    match state {
        Dispatch::FetchingComic(s) => match cmd {
            Command::Comic(n) => match fetch_comic(s, event, *n) {
                Step::Next(s, a) => Step::Next(Dispatch::FetchingComic(s), a),
                Step::Done(Ok(c)) => {
                    let first = send_comic(ComicSend::Start, Event::Begin, &c);
                    post(first, c)
                },
                Step::Done(Err(e)) => Step::Done(Err(e)),
            },
            _ => Step::Done(Err(TransportError::unexpected())),
        },
        Dispatch::PostingComic(s, c) => {
            let next = send_comic(s, event, &c);
            post(next, c)
        },
        Dispatch::Inspiring(s) => match inspirobot(s, event) {
            Step::Next(s, a) => Step::Next(Dispatch::Inspiring(s), a),
            Step::Done(Ok(_)) => Step::Done(Ok(Outcome::Executed)),
            Step::Done(Err(e)) => Step::Done(Err(e)),
        },
        Dispatch::ReadingCount(s) => match get_lols(s, event) {
            Step::Next(s, a) => Step::Next(Dispatch::ReadingCount(s), a),
            Step::Done(Ok(n)) => {
                let mut line = String::from_str("lolcount: ");
                line.append(decimal_text(n).as_str());
                tell(line, Outcome::Executed)
            },
            Step::Done(Err(e)) => Step::Done(Err(e)),
        },
        Dispatch::Bumping(s) => match get_lols(s, event) {
            Step::Next(s, a) => Step::Next(Dispatch::Bumping(s), a),
            Step::Done(Ok(n)) => {
                let raised = bump(n);
                store(set_lols(WriteStep::Start, Event::Begin, raised), raised, cmd)
            },
            Step::Done(Err(e)) => Step::Done(Err(e)),
        },
        Dispatch::Storing(s, n) => store(set_lols(s, event, n), n, cmd),
        Dispatch::Explaining(s) => match wfrog_explain_state(s, event) {
            Step::Next(s, a) => Step::Next(Dispatch::Explaining(s), a),
            Step::Done(Ok(_)) => Step::Done(Ok(Outcome::Executed)),
            Step::Done(Err(e)) => Step::Done(Err(e)),
        },
        Dispatch::Editing(s) => match cmd {
            Command::WfrogSetText(text) => edit(wfrog_set_text(s, event, text.as_str())),
            Command::WfrogEnable(which) => edit(wfrog_disable_enable(s, event, *which)),
            _ => Step::Done(Err(TransportError::unexpected())),
        },
        Dispatch::SettingImage(s) => match cmd {
            Command::WfrogSetImage(url, info) => match wfrog_set_image(s, event, url.as_str(), info) {
                Step::Next(s, a) => Step::Next(Dispatch::SettingImage(s), a),
                Step::Done(Ok(_)) => Step::Done(Ok(Outcome::Executed)),
                Step::Done(Err(e)) => Step::Done(Err(e)),
            },
            _ => Step::Done(Err(TransportError::unexpected())),
        },
        _ => Step::Done(Err(TransportError::unexpected())),
    }
}

fn begin(cmd: &Command) -> (r: Step<Dispatch, Outcome>)
    ensures
        r@ == begun(cmd@),
{
    let first = match cmd {
        Command::Ping => {
            return tell(String::from_str(PONG), Outcome::Executed);
        },
        Command::ParseFail => {
            return tell(String::from_str(PARSE_FAILED), Outcome::ParseFailed);
        },
        Command::Comic(_) => Dispatch::FetchingComic(ComicFetch::Start),
        Command::Inspirobot => Dispatch::Inspiring(Inspiration::Start),
        Command::GetLolcount => Dispatch::ReadingCount(LolsRead::Start),
        Command::IncrementLolcount => Dispatch::Bumping(LolsRead::Start),
        Command::SetLolcount(n) => Dispatch::Storing(WriteStep::Start, *n),
        Command::WfrogExplain => Dispatch::Explaining(Explain::Start),
        Command::WfrogSetText(_) => Dispatch::Editing(Edit::Start),
        Command::WfrogEnable(_) => Dispatch::Editing(Edit::Start),
        Command::WfrogSetImage(_, _) => Dispatch::SettingImage(WriteStep::Start),
    };
    handle(first, Event::Begin, cmd)
}

/// What an inbound event holds, as far as the engine reads it.
#[derive(Debug, PartialEq, Eq)]
pub enum Content {
    /// A text message with its body.
    Text(String),
    /// A picture with its file name, its content reference and its metadata.
    Image(String, String, ImageInfo),
    /// Anything else.
    Other,
}

/// What contracts see of a [`Content`].
pub enum ContentView {
    Text(Seq<char>),
    Image(Seq<char>, Seq<char>, ImageInfoView),
    Other,
}

impl View for Content {
    type V = ContentView;

    open spec fn view(&self) -> ContentView {
        match *self {
            Content::Text(body) => ContentView::Text(body@),
            Content::Image(filename, url, info) => ContentView::Image(filename@, url@, info@),
            Content::Other => ContentView::Other,
        }
    }
}

/// An event of a room as it comes in.
#[derive(Debug, PartialEq, Eq)]
pub struct Incoming {
    pub sender: String,
    pub event_id: String,
    pub content: Content,
}

/// What contracts see of a [`Incoming`].
pub struct IncomingView {
    pub sender: Seq<char>,
    pub event_id: Seq<char>,
    pub content: ContentView,
}

impl View for Incoming {
    type V = IncomingView;

    open spec fn view(&self) -> IncomingView {
        IncomingView { sender: self.sender@, event_id: self.event_id@, content: self.content@ }
    }
}

/// How the handling of an inbound event ended.
#[derive(Debug, PartialEq, Eq)]
pub enum Handled {
    /// The event was the bot's own, or no command.
    Ignored,
    /// The event was a command, and its dispatch ended as said.
    Dispatched(Outcome),
    /// The command failed with the error described; the room was sent the
    /// report.
    Failed(String),
}

/// What contracts see of a [`Handled`].
pub enum HandledView {
    Ignored,
    Dispatched(Outcome),
    Failed(Seq<char>),
}

impl View for Handled {
    type V = HandledView;

    open spec fn view(&self) -> HandledView {
        match *self {
            Handled::Ignored => HandledView::Ignored,
            Handled::Dispatched(o) => HandledView::Dispatched(o),
            Handled::Failed(why) => HandledView::Failed(why@),
        }
    }
}

/// Where the handling of an inbound event stands.
#[derive(Debug, PartialEq, Eq)]
pub enum Inbound {
    Start,
    /// The read receipt is on its way.
    Receipting,
    Dispatching(Dispatch, Command),
    /// The report of the error described is on its way.
    Reporting(String),
}

/// What contracts see of a [`Inbound`].
pub enum InboundView {
    Start,
    Receipting,
    Dispatching(DispatchView, CommandView),
    Reporting(Seq<char>),
}

impl View for Inbound {
    type V = InboundView;

    open spec fn view(&self) -> InboundView {
        match *self {
            Inbound::Start => InboundView::Start,
            Inbound::Receipting => InboundView::Receipting,
            Inbound::Dispatching(d, c) => InboundView::Dispatching(d@, c@),
            Inbound::Reporting(why) => InboundView::Reporting(why@),
        }
    }
}

/// The command that an event's content holds.
pub open spec fn content_command(content: ContentView) -> Option<CommandView> {
    match content {
        ContentView::Text(body) => command_of(body),
        ContentView::Image(filename, url, info) => picture_command(filename, url, info),
        ContentView::Other => None,
    }
}

/// A step of a dispatch as a step of the handling of its event. An error
/// of the dispatch goes no further: the room is sent its report.
pub open spec fn dispatching(turn: Turn, cmd: CommandView) -> StepView<InboundView, HandledView> {
    match turn {
        StepView::Next(d, a) => StepView::Next(InboundView::Dispatching(d, cmd), a),
        StepView::Done(Ok(o)) => StepView::Done(Ok(HandledView::Dispatched(o))),
        StepView::Done(Err(e)) => StepView::Next(
            InboundView::Reporting(e),
            ActionView::SendText(rendered_error(e)),
        ),
    }
}

/// The handling of an inbound event by the bot with the user identifier
/// `me`. The bot's own events are ignored. Any other is marked as read,
/// whether or not that succeeds; then its command, if it holds one, is
/// dispatched. An error of the dispatch is reported to the room, whether or
/// not that succeeds, and the handling ends without an error of its own.
pub open spec fn handle_event_step(
    me: Seq<char>,
    state: InboundView,
    event: EventView,
    incoming: IncomingView,
) -> StepView<InboundView, HandledView> {
    match state {
        InboundView::Start => if incoming.sender == me {
            StepView::Done(Ok(HandledView::Ignored))
        } else {
            StepView::Next(InboundView::Receipting, ActionView::SendReceipt(incoming.event_id))
        },
        InboundView::Receipting => match content_command(incoming.content) {
            None => StepView::Done(Ok(HandledView::Ignored)),
            Some(cmd) => dispatching(
                process_command_step(DispatchView::Start, EventView::Begin, incoming.sender, cmd),
                cmd,
            ),
        },
        InboundView::Dispatching(d, cmd) => dispatching(
            process_command_step(d, event, incoming.sender, cmd),
            cmd,
        ),
        InboundView::Reporting(why) => StepView::Done(Ok(HandledView::Failed(why))),
    }
}

/// No error leaves the handling of an event.
pub proof fn lemma_no_error_escapes(
    me: Seq<char>,
    state: InboundView,
    event: EventView,
    incoming: IncomingView,
)
    ensures
        !(handle_event_step(me, state, event, incoming) matches StepView::Done(Err(_))),
{
}

fn dispatch(turn: Step<Dispatch, Outcome>, cmd: Command) -> (r: Step<Inbound, Handled>)
    ensures
        r@ == dispatching(turn@, cmd@),
{
    match turn {
        Step::Next(d, a) => Step::Next(Inbound::Dispatching(d, cmd), a),
        Step::Done(Ok(o)) => Step::Done(Ok(Handled::Dispatched(o))),
        Step::Done(Err(e)) => {
            let report = render_error(&e);
            Step::Next(Inbound::Reporting(e.description), Action::SendText(report))
        },
    }
}

impl XkcdBot {
    /// The engine of the account with the given user identifier.
    pub fn new(user_id: String) -> (r: XkcdBot)
        ensures
            r.user_id@ == user_id@,
    {
        XkcdBot { user_id }
    }

    /// Reads the command out of a message; `None` for ordinary chat.
    pub fn message_to_command(m: &str) -> (r: Option<Command>)
        ensures
            command_view(r) == command_of(m@),
            laughs(m@) ==> command_view(r) == Some(CommandView::IncrementLolcount),
    {
        classify(is_laughter(m), m)
    }

    /// Reads the command out of a posted picture.
    pub fn image_to_command(filename: &str, url: &str, info: &ImageInfo) -> (r: Option<Command>)
        ensures
            command_view(r) == picture_command(filename@, url@, info@),
    {
        if same_text(filename, SENTINEL) {
            Some(Command::WfrogSetImage(String::from_str(url), info.duplicate()))
        } else {
            None
        }
    }

    /// Reads the command out of an event's content.
    pub fn content_to_command(content: &Content) -> (r: Option<Command>)
        ensures
            command_view(r) == content_command(content@),
    {
        match content {
            Content::Text(body) => Self::message_to_command(body.as_str()),
            Content::Image(filename, url, info) => Self::image_to_command(
                filename.as_str(),
                url.as_str(),
                info,
            ),
            Content::Other => None,
        }
    }

    /// Runs the handling of an inbound event one step further.
    pub fn handle_event(&self, state: Inbound, event: Event, incoming: &Incoming) -> (r: Step<
        Inbound,
        Handled,
    >)
        ensures
            r@ == handle_event_step(self.user_id@, state@, event@, incoming@),
            !(r matches Step::Done(Err(_))),
    {
        match state {
            Inbound::Start => {
                if same_text(incoming.sender.as_str(), self.user_id.as_str()) {
                    Step::Done(Ok(Handled::Ignored))
                } else {
                    Step::Next(Inbound::Receipting, Action::SendReceipt(incoming.event_id.clone()))
                }
            },
            Inbound::Receipting => match Self::content_to_command(&incoming.content) {
                None => Step::Done(Ok(Handled::Ignored)),
                Some(cmd) => {
                    let first = Self::process_command(
                        Dispatch::Start,
                        Event::Begin,
                        incoming.sender.as_str(),
                        &cmd,
                    );
                    dispatch(first, cmd)
                },
            },
            Inbound::Dispatching(d, cmd) => {
                let next = Self::process_command(d, event, incoming.sender.as_str(), &cmd);
                dispatch(next, cmd)
            },
            Inbound::Reporting(why) => Step::Done(Ok(Handled::Failed(why))),
        }
    }

    /// Runs the dispatch of a command one step further.
    pub fn process_command(state: Dispatch, event: Event, sender: &str, cmd: &Command) -> (r: Step<
        Dispatch,
        Outcome,
    >)
        ensures
            r@ == process_command_step(state@, event@, sender@, cmd@),
    {
        match state {
            Dispatch::Start => Step::Next(
                Dispatch::Authorizing,
                Action::QueryLevel(String::from_str(sender)),
            ),
            Dispatch::Authorizing => match event {
                Event::Level(level) => match authorize(level, cmd) {
                    Decision::Denied => tell(String::from_str(REFUSAL), Outcome::Denied),
                    Decision::Allowed => begin(cmd),
                },
                other => Step::Done(Err(refuse(other))),
            },
            Dispatch::Telling(outcome) => match acknowledge(event) {
                Ok(_) => Step::Done(Ok(outcome)),
                Err(e) => Step::Done(Err(e)),
            },
            other => handle(other, event, cmd),
        }
    }
}

} // verus!
