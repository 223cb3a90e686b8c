//! The engine of a chat-room bot: it reads commands out of messages, asks
//! whether the sender may give them, carries them out, and posts a picture
//! once per calendar day in the rooms that asked for one.
//!
//! The engine does no I/O. Every handler is a function from its state and
//! the last event to its next state and the action to perform (see
//! [`effect`]); the program that embeds the engine performs the actions in
//! the chat service and on the web and hands back what came of them.
//!
//! - [`command`] reads commands out of message text.
//! - [`permission`] says which power level each command asks for.
//! - [`bot`] dispatches a command and handles an inbound event from end to
//!   end, errors included.
//! - [`lolcount`], [`wfrog`], [`xkcd`] and [`inspirobot`] hold the handlers.
//! - [`state`] reads the outcome of a lookup in a room's state as found,
//!   absent or failed.
//! - [`web`], [`media`], [`time`] and [`text`] hold what the handlers share.
//! - [`room`] states what holds of the handlers in a room that answers
//!   their actions.

pub mod bot;
pub mod command;
pub mod effect;
pub mod failure;
pub mod inspirobot;
pub mod lolcount;
pub mod media;
pub mod permission;
pub mod room;
pub mod state;
pub mod text;
pub mod time;
pub mod web;
pub mod wfrog;
pub mod xkcd;
