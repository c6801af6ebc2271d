//! Identities the runtime mints: of Messages, of Sections and of Streams.

use vstd::prelude::*;

verus! {

/// The identity of one Message, one generation of a lineage.
#[derive(Clone, Copy, Debug, PartialEq, Eq, Hash, Structural)]
pub struct MessageId {
    pub value: u128,
}

/// The identity of one Section within a Message.
#[derive(Clone, Copy, Debug, PartialEq, Eq, Hash, Structural)]
pub struct SectionId {
    pub value: u128,
}

/// The identity of one immutable Stream.
#[derive(Clone, Copy, Debug, PartialEq, Eq, Hash, Structural)]
pub struct StreamId {
    pub value: u128,
}

impl MessageId {
    pub fn new(value: u128) -> (id: MessageId)
        ensures
            id.value == value,
    {
        MessageId { value }
    }
}

impl SectionId {
    pub fn new(value: u128) -> (id: SectionId)
        ensures
            id.value == value,
    {
        SectionId { value }
    }
}

impl StreamId {
    pub fn new(value: u128) -> (id: StreamId)
        ensures
            id.value == value,
    {
        StreamId { value }
    }
}

} // verus!
