//! The permission guard: the power level that each command asks for, and the
//! decision on a sender who has a given level.

use crate::command::{Command, CommandView};
use vstd::prelude::*;

verus! {

/// The level asked of whoever configures the daily picture.
pub const CONFIGURE_LEVEL: u32 = 20;

/// The level asked of whoever overwrites the laughter counter.
pub const OVERRIDE_LEVEL: u32 = 50;

/// The least power level that a command asks of its sender: nothing for
/// the commands that read, post or count; the configuring level for those
/// that change the daily picture's settings; the overriding level for
/// overwriting the counter.
pub open spec fn required_level(c: CommandView) -> u32 {
    match c {
        CommandView::SetLolcount(_) => OVERRIDE_LEVEL,
        CommandView::WfrogSetText(_) => CONFIGURE_LEVEL,
        CommandView::WfrogEnable(_) => CONFIGURE_LEVEL,
        CommandView::WfrogSetImage(_, _) => CONFIGURE_LEVEL,
        _ => 0,
    }
}

/// Tells the least power level that a command asks of its sender.
pub fn level_for(c: &Command) -> (r: u32)
    ensures
        r == required_level(c@),
{
    match c {
        Command::SetLolcount(_) => OVERRIDE_LEVEL,
        Command::WfrogSetText(_) => CONFIGURE_LEVEL,
        Command::WfrogEnable(_) => CONFIGURE_LEVEL,
        Command::WfrogSetImage(_, _) => CONFIGURE_LEVEL,
        _ => 0,
    }
}

/// The guard's answer.
#[derive(Clone, Copy, Debug, PartialEq, Eq, Structural)]
pub enum Decision {
    Allowed,
    Denied,
}

/// The decision on a command from a sender of the given level: denied
/// where the command asks for more, allowed otherwise.
pub open spec fn decided(level: u32, c: CommandView) -> Decision {
    if required_level(c) > level {
        Decision::Denied
    } else {
        Decision::Allowed
    }
}

/// Decides on a command from a sender whose power level is `level`.
pub fn authorize(level: u32, c: &Command) -> (r: Decision)
    ensures
        r == decided(level, c@),
        r is Denied <==> required_level(c@) > level,
{
    if level_for(c) > level {
        Decision::Denied
    } else {
        Decision::Allowed
    }
}

/// What a level allows, every higher level allows too.
pub proof fn lemma_higher_level_keeps_allowance(low: u32, high: u32, c: CommandView)
    requires
        low <= high,
        decided(low, c) is Allowed,
    ensures
        decided(high, c) is Allowed,
{
}

/// A command that asks for no level is allowed to every sender.
pub proof fn lemma_free_commands_always_pass(level: u32, c: CommandView)
    requires
        required_level(c) == 0,
    ensures
        decided(level, c) is Allowed,
{
}

} // verus!
