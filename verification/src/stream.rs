//! The Stream: immutable content, with the media type it arrived with.

use vstd::prelude::*;

use crate::ids::StreamId;

verus! {

/// Immutable content. Nothing in a Stream changes once it exists: a new
/// content is a new Stream.
#[derive(Clone, Debug, PartialEq, Eq)]
pub struct Stream {
    id: StreamId,
    bytes: Vec<u8>,
    media_type: Option<String>,
}

impl Stream {
    /// The identity of this Stream.
    pub closed spec fn spec_id(&self) -> StreamId {
        self.id
    }

    /// The content.
    pub closed spec fn content(&self) -> Seq<u8> {
        self.bytes@
    }

    /// The media type the content arrived with, as given, parameters included.
    pub closed spec fn declared_media_type(&self) -> Option<Seq<char>> {
        match &self.media_type {
            Some(m) => Some(m@),
            None => None,
        }
    }

    pub fn new(id: StreamId, bytes: Vec<u8>, media_type: Option<String>) -> (s: Stream)
        ensures
            s.spec_id() == id,
            s.content() == bytes@,
            s.declared_media_type() == (match media_type {
                Some(m) => Some(m@),
                None => None::<Seq<char>>,
            }),
    {
        Stream { id, bytes, media_type }
    }

    pub fn id(&self) -> (id: StreamId)
        ensures
            id == self.spec_id(),
    {
        self.id
    }

    pub fn bytes(&self) -> (b: &[u8])
        ensures
            b@ == self.content(),
    {
        self.bytes.as_slice()
    }

    pub fn media_type(&self) -> (m: Option<&str>)
        ensures
            m matches Some(s) ==> self.declared_media_type() == Some(s@),
            m is None ==> self.declared_media_type() is None,
    {
        match &self.media_type {
            Some(m) => Some(m.as_str()),
            None => None,
        }
    }

    pub fn len(&self) -> (n: usize)
        ensures
            n == self.content().len(),
    {
        self.bytes.len()
    }

    pub fn is_empty(&self) -> (e: bool)
        ensures
            e == (self.content().len() == 0),
    {
        self.bytes.len() == 0
    }
}

} // verus!
