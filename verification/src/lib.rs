//! A router for chat commands: a tree of named commands, the walk that
//! resolves a line of text to a command entry and its arguments, the walk that
//! rebinds an entry in place, and the decisions of the dispatch loop.

pub mod text;
pub mod command;
pub mod laws;
pub mod playlist;
pub mod registry;
pub mod uptime;
pub mod dispatch;
pub mod handlers;
pub mod slice;
pub mod bot;
