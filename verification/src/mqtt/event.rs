//! What an MQTT connection delivers.

use vstd::prelude::*;

verus! {

/// The number by which the client knows a message.
pub type MessageId = u32;

/// How surely a message is to be delivered.
#[derive(Copy, Clone, Eq, PartialEq, Debug, Structural)]
pub enum QoS {
    AtMostOnce,
    AtLeastOnce,
    ExactlyOnce,
}

/// An event of the connection, with received messages of type `M`.
#[derive(Copy, Clone, Debug)]
pub enum Event<M> {
    BeforeConnect,
    Connected(bool),
    Disconnected,
    Subscribed(MessageId),
    Unsubscribed(MessageId),
    Published(MessageId),
    Received(M),
    Deleted(MessageId),
}

impl<M> Event<M> {
    /// This event, with `message` in place of the message that it brings,
    /// where it brings one.
    pub open spec fn with_message<O>(self, message: O) -> Event<O> {
        match self {
            Event::BeforeConnect => Event::BeforeConnect,
            Event::Connected(session) => Event::Connected(session),
            Event::Disconnected => Event::Disconnected,
            Event::Subscribed(id) => Event::Subscribed(id),
            Event::Unsubscribed(id) => Event::Unsubscribed(id),
            Event::Published(id) => Event::Published(id),
            Event::Received(_) => Event::Received(message),
            Event::Deleted(id) => Event::Deleted(id),
        }
    }
}

/// Which part of its payload a message brings.
#[derive(Copy, Clone, Eq, PartialEq, Debug, Structural)]
pub enum Details {
    /// All of it.
    Complete,
    /// The first part of a payload in several parts.
    InitialChunk(InitialChunkData),
    /// A later part.
    SubsequentChunk(SubsequentChunkData),
}

#[derive(Copy, Clone, Eq, PartialEq, Debug, Structural)]
pub struct InitialChunkData {
    /// The size of the whole payload.
    pub total_data_size: usize,
}

#[derive(Copy, Clone, Eq, PartialEq, Debug, Structural)]
pub struct SubsequentChunkData {
    /// Where in the payload this part begins.
    pub current_data_offset: usize,
    /// The size of the whole payload.
    pub total_data_size: usize,
}

/// A received message.
#[derive(Copy, Clone, Debug)]
pub struct Message<'a> {
    /// Its topic. A later part of a payload may come without one.
    pub topic: Option<&'a str>,
    pub data: &'a [u8],
    pub details: Details,
}

} // verus!
