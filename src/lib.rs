//! An in-process message bus: envelopes from one ingress stream are fanned
//! out to the subscribers of named topics.

pub mod message;
pub mod outside;
pub mod router;

pub use message::{Message, MessageData, Topic};
pub use router::{Error, Outcome, Router, DEFAULT_BUFFER, DEFAULT_TOPIC};
