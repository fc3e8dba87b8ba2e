//! Core of a chat-relay bot: per-user conversation state, a slash-command
//! dispatcher over that state, and the construction of the role-tagged
//! request turns handed to a language-model backend.
//!
//! The dispatcher and the message handler are pure state transitions;
//! their whole behaviour is stated as spec functions (`bot::dispatch`,
//! `handler::handle_message_spec`) that the executable functions are
//! proved to implement. The network, the clock and persistence live
//! outside the core: the clock enters through one trusted wrapper, and
//! the model boundary is the `ai::Model` trait together with the
//! request turns built for each call.

pub mod ai;
pub mod bot;
pub mod handler;
pub mod models;
