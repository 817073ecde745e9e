//! Decision logic of a chat bot that answers one slash command, `play`: it
//! finds the voice channel of the invoking user, asks for that channel to be
//! joined, has a media index searched for the requested song and reports the
//! title that was found.
//!
//! Nothing in this crate talks to the network or starts a process. Each
//! invocation is a [`flow::Flow`]: a state machine that hands out one
//! [`flow::Action`] at a time and is fed the outcome of that action as an
//! [`flow::Event`]. The program around the library performs the actions.

pub mod error;
pub mod flow;
pub mod handler;
pub mod invocation;
pub mod lifecycle;
pub mod search;
pub mod text;
pub mod voice;

