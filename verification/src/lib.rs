//! Conversation state machine of an evidence-intake chat bot.
//!
//! A participant verifies their phone number, sends photos or videos, adds a
//! text comment and confirms; the bundle is then relayed to a moderation
//! channel. This crate is the decision part only: given the stored state of a
//! conversation and one inbound message it computes the next state and the
//! ordered list of requests to the transport. It performs no I/O.

pub mod action;
pub mod command;
pub mod dialogue;
pub mod event;
pub mod laws;
pub mod messages;
pub mod model;
pub mod state;
pub mod strings;

pub use action::{KeyboardButton, KeyboardMarkup, OutboundAction};
pub use command::{Command, ParseError};
pub use dialogue::transition;
pub use event::{Content, InboundEvent, MediaKind};
pub use state::{Contact, State};
