//! Envelopes: what producers send into the router.

use crate::outside::now_timestamp;
use vstd::prelude::*;

verus! {

/// The name of a topic.
pub type Topic = String;

/// What an envelope carries.
#[derive(Debug, Clone, PartialEq, Eq)]
pub enum MessageData<E> {
    /// No data; a placeholder value.
    Empty,
    /// An application payload.
    Data(E),
    /// The control directive that ends distribution. It is consumed by the
    /// router and never reaches a subscriber.
    StopSignal,
}

impl<E> Default for MessageData<E> {
    fn default() -> (r: Self)
        ensures
            r is Empty,
    {
        MessageData::Empty
    }
}

/// An envelope: an identifier, a creation time, an optional topic (absent
/// means the default topic) and a payload. It is never changed once made.
#[derive(Debug, Clone, PartialEq, Eq)]
pub struct Message<E> {
    pub id: uuid::Uuid,
    pub timestamp: i64,
    pub data: MessageData<E>,
    pub topic: Option<String>,
}

impl<E> Message<E> {
    /// An envelope with a fresh random identifier and the current time,
    /// carrying `data` to `topic`.
    pub fn new(topic: Option<Topic>, data: E) -> (r: Self)
        ensures
            r.data == MessageData::Data(data),
            r.topic == topic,
    {
        let id = uuid::Uuid::new_v4();
        let timestamp = now_timestamp();
        Message { id, timestamp, data: MessageData::Data(data), topic }
    }

    /// An envelope with the given identifier and the current time, carrying
    /// `data` to `topic`.
    pub fn new_with_id(id: uuid::Uuid, data: E, topic: Option<Topic>) -> (r: Self)
        ensures
            r.id == id,
            r.data == MessageData::Data(data),
            r.topic == topic,
    {
        let timestamp = now_timestamp();
        Message { id, timestamp, data: MessageData::Data(data), topic }
    }

    /// A stop signal with a fresh random identifier and the current time.
    pub fn stop_signal(topic: Option<Topic>) -> (r: Self)
        ensures
            r.data is StopSignal,
            r.topic == topic,
    {
        let id = uuid::Uuid::new_v4();
        let timestamp = now_timestamp();
        Message { id, timestamp, data: MessageData::StopSignal, topic }
    }
}

} // verus!
