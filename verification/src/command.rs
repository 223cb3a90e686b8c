//! Commands and the classifier that reads them out of message text.

use crate::media::{ImageInfo, ImageInfoView};
use crate::text::{
    eq_ignore_case, join_from, joined, parse_u32, parsed_u32, same_word, split_words, tokens,
    views, words_from,
};
use regex::Regex;
use vstd::prelude::*;

verus! {

/// What a message can ask of the engine.
#[derive(Clone, Debug, PartialEq, Eq)]
pub enum Command {
    Ping,
    /// Post the comic with the number, or the latest one.
    Comic(Option<u32>),
    Inspirobot,
    /// Overwrite the laughter counter.
    SetLolcount(u32),
    GetLolcount,
    IncrementLolcount,
    /// The message was a command with an argument that is no number.
    ParseFail,
    /// Explain how the daily picture is configured.
    WfrogExplain,
    /// Set the caption of the daily picture.
    WfrogSetText(String),
    /// Switch the daily picture on or off.
    WfrogEnable(bool),
    /// Configure the picture with the given reference and metadata as the
    /// daily picture.
    WfrogSetImage(String, ImageInfo),
}

/// What contracts see of a [`Command`].
pub enum CommandView {
    Ping,
    Comic(Option<u32>),
    Inspirobot,
    SetLolcount(u32),
    GetLolcount,
    IncrementLolcount,
    ParseFail,
    WfrogExplain,
    WfrogSetText(Seq<char>),
    WfrogEnable(bool),
    WfrogSetImage(Seq<char>, ImageInfoView),
}

impl View for Command {
    type V = CommandView;

    open spec fn view(&self) -> CommandView {
        match *self {
            Command::Ping => CommandView::Ping,
            Command::Comic(n) => CommandView::Comic(n),
            Command::Inspirobot => CommandView::Inspirobot,
            Command::SetLolcount(n) => CommandView::SetLolcount(n),
            Command::GetLolcount => CommandView::GetLolcount,
            Command::IncrementLolcount => CommandView::IncrementLolcount,
            Command::ParseFail => CommandView::ParseFail,
            Command::WfrogExplain => CommandView::WfrogExplain,
            Command::WfrogSetText(t) => CommandView::WfrogSetText(t@),
            Command::WfrogEnable(b) => CommandView::WfrogEnable(b),
            Command::WfrogSetImage(url, info) => CommandView::WfrogSetImage(url@, info@),
        }
    }
}

/// The view of a command that may be missing.
pub open spec fn command_view(c: Option<Command>) -> Option<CommandView> {
    match c {
        Some(c) => Some(c@),
        None => None,
    }
}

/// The regular expression for laughter: a word that starts with `l` and
/// goes on with one or more groups of vowels from `o`, `e`, `u` closed by an
/// `l`, in either case.
pub const LAUGHTER: &'static str = "(?i)\\bl([oeu]+l)+\\b";

/// Whether the regex crate, having compiled `pattern`, finds a match of it
/// anywhere in `text`; `None` where it rejects the pattern.
pub uninterp spec fn pattern_found(pattern: Seq<char>, text: Seq<char>) -> Option<bool>;

/// Compiles the pattern with `Regex::new` and searches the text with
/// `Regex::is_match`. The contract claims only that the outcome is a
/// function of the two texts.
#[verifier::external_body]
fn search(pattern: &str, text: &str) -> (r: Option<bool>)
    ensures
        r == pattern_found(pattern@, text@),
{
    match Regex::new(pattern) {
        Ok(re) => Some(re.is_match(text)),
        Err(_) => None,
    }
}

/// Whether a message laughs.
pub open spec fn laughs(m: Seq<char>) -> bool {
    pattern_found(LAUGHTER@, m) == Some(true)
}

/// Tells whether a message laughs.
pub fn is_laughter(m: &str) -> (r: bool)
    ensures
        r == laughs(m@),
{
    match search(LAUGHTER, m) {
        Some(found) => found,
        None => false,
    }
}

/// The command with a numeric argument: `make` of the number, or a parse
/// failure where the argument is no number.
pub open spec fn numbered(arg: Seq<char>, make: spec_fn(u32) -> CommandView) -> CommandView {
    match parsed_u32(arg) {
        Some(n) => make(n),
        None => CommandView::ParseFail,
    }
}

/// The command that a list of tokens spells. The first token picks the
/// verb, in either case; the number of tokens and the second token pick the
/// form. Fixed forms come before the form with a number, and the form with
/// free text takes all tokens that follow, joined by single spaces.
///
/// | tokens | command |
/// |---|---|
/// | `xkcd ping` | `Ping` |
/// | `xkcd latest` | `Comic(None)` |
/// | `xkcd <n>` | `Comic(Some(n))` |
/// | `inspirobot` | `Inspirobot` |
/// | `lolcount` | `GetLolcount` |
/// | `lolcount set <n>` | `SetLolcount(n)` |
/// | `mittwoch` | `WfrogExplain` |
/// | `mittwoch text <words>` | `WfrogSetText(words)` |
/// | `mittwoch enable` | `WfrogEnable(true)` |
/// | `mittwoch disable` | `WfrogEnable(false)` |
pub open spec fn spelled(t: Seq<Seq<char>>) -> Option<CommandView> {
    if t.len() == 0 {
        None
    } else if same_word(t[0], "xkcd"@) {
        if t.len() != 2 {
            None
        } else if same_word(t[1], "ping"@) {
            Some(CommandView::Ping)
        } else if same_word(t[1], "latest"@) {
            Some(CommandView::Comic(None))
        } else {
            Some(numbered(t[1], |n: u32| CommandView::Comic(Some(n))))
        }
    } else if same_word(t[0], "inspirobot"@) {
        if t.len() == 1 {
            Some(CommandView::Inspirobot)
        } else {
            None
        }
    } else if same_word(t[0], "lolcount"@) {
        if t.len() == 1 {
            Some(CommandView::GetLolcount)
        } else if t.len() == 3 && same_word(t[1], "set"@) {
            Some(numbered(t[2], |n: u32| CommandView::SetLolcount(n)))
        } else {
            None
        }
    } else if same_word(t[0], "mittwoch"@) {
        if t.len() == 1 {
            Some(CommandView::WfrogExplain)
        } else if same_word(t[1], "text"@) {
            Some(CommandView::WfrogSetText(joined(words_from(t, 2))))
        } else if t.len() == 2 && same_word(t[1], "enable"@) {
            Some(CommandView::WfrogEnable(true))
        } else if t.len() == 2 && same_word(t[1], "disable"@) {
            Some(CommandView::WfrogEnable(false))
        } else {
            None
        }
    } else {
        None
    }
}

/// The command of a message, given whether it laughs: laughter counts
/// whatever else the message spells; else the message's tokens decide.
pub open spec fn classified(laughing: bool, m: Seq<char>) -> Option<CommandView> {
    if laughing {
        Some(CommandView::IncrementLolcount)
    } else {
        spelled(tokens(m))
    }
}

/// The command of a message; `None` for ordinary chat.
pub open spec fn command_of(m: Seq<char>) -> Option<CommandView> {
    classified(laughs(m), m)
}

/// Reads the command that a list of tokens spells.
pub fn spell(t: &Vec<String>) -> (r: Option<Command>)
    ensures
        command_view(r) == spelled(views(t@)),
{
    let n = t.len();
    if n == 0 {
        return None;
    }
    let verb = t[0].as_str();
    if eq_ignore_case(verb, "xkcd") {
        if n != 2 {
            None
        } else if eq_ignore_case(t[1].as_str(), "ping") {
            Some(Command::Ping)
        } else if eq_ignore_case(t[1].as_str(), "latest") {
            Some(Command::Comic(None))
        } else {
            match parse_u32(t[1].as_str()) {
                Some(k) => Some(Command::Comic(Some(k))),
                None => Some(Command::ParseFail),
            }
        }
    } else if eq_ignore_case(verb, "inspirobot") {
        if n == 1 {
            Some(Command::Inspirobot)
        } else {
            None
        }
    } else if eq_ignore_case(verb, "lolcount") {
        if n == 1 {
            Some(Command::GetLolcount)
        } else if n == 3 && eq_ignore_case(t[1].as_str(), "set") {
            match parse_u32(t[2].as_str()) {
                Some(k) => Some(Command::SetLolcount(k)),
                None => Some(Command::ParseFail),
            }
        } else {
            None
        }
    } else if eq_ignore_case(verb, "mittwoch") {
        if n == 1 {
            Some(Command::WfrogExplain)
        } else if eq_ignore_case(t[1].as_str(), "text") {
            Some(Command::WfrogSetText(join_from(t, 2)))
        } else if n == 2 && eq_ignore_case(t[1].as_str(), "enable") {
            Some(Command::WfrogEnable(true))
        } else if n == 2 && eq_ignore_case(t[1].as_str(), "disable") {
            Some(Command::WfrogEnable(false))
        } else {
            None
        }
    } else {
        None
    }
}

/// Classifies a message, given whether it laughs.
pub fn classify(laughing: bool, m: &str) -> (r: Option<Command>)
    ensures
        command_view(r) == classified(laughing, m@),
{
    if laughing {
        Some(Command::IncrementLolcount)
    } else {
        let t = split_words(m);
        spell(&t)
    }
}

/// The file name that marks a posted picture as the one to configure.
pub const SENTINEL: &'static str = "mittwoch.png";

/// The command of a posted picture: the configuring of the daily picture
/// where the file bears the sentinel name, none else.
pub open spec fn picture_command(filename: Seq<char>, url: Seq<char>, info: ImageInfoView) -> Option<
    CommandView,
> {
    if filename == SENTINEL@ {
        Some(CommandView::WfrogSetImage(url, info))
    } else {
        None
    }
}

/// Laughter is counted whatever else a message spells.
pub proof fn lemma_laughter_wins(m: Seq<char>)
    requires
        laughs(m),
    ensures
        command_of(m) == Some(CommandView::IncrementLolcount),
{
}

} // verus!
