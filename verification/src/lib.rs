//! A mail relay: it watches a mailbox for unseen messages from one sender and
//! answers each of them.
//!
//! The crate holds the decisions of the relay and proves them; the network
//! sessions themselves belong to the caller. [`relay::Relay`] is a machine
//! that asks for one piece of outside work at a time ([`relay::Action`]) and
//! is told how it went ([`relay::Event`]).

pub mod error;
pub mod laws;
pub mod model;
pub mod relay;
pub mod reply;
pub mod settings;
pub mod text;

pub use crate::error::RelayError;
pub use crate::model::Phase;
pub use crate::relay::{Action, Event, Message, Relay};
pub use crate::reply::Reply;
pub use crate::settings::EmailConfig;
pub use crate::text::callback_fn;
