//! The shape of received content: how bytes become the parts of a Message.
//!
//! A transport delivers bytes. Before any contract validates them, something
//! has to say what they are: one document, a multipart body of three parts, an
//! interchange of segments, or bytes that are nothing more than bytes. That is
//! a shape. Ids are the runtime's to mint, so a shape hands back parts, not
//! Sections.

use vstd::prelude::*;

use crate::stream::Stream;
use crate::text::{decimal, essence, media_type_essence, push_decimal, same_text};

verus! {

/// One part of shaped content, before it has an id.
#[derive(Clone, Debug, PartialEq, Eq)]
pub struct Part {
    /// What the shape calls this part: a multipart name, a segment tag, a row
    /// number. `None` for the one part of a single-document shape.
    pub name: Option<String>,
    pub bytes: Vec<u8>,
    pub media_type: Option<String>,
}

/// The view of an optional text.
pub open spec fn text_view(t: Option<String>) -> Option<Seq<char>> {
    match t {
        Some(s) => Some(s@),
        None => None,
    }
}

impl Part {
    pub fn new(name: Option<String>, bytes: Vec<u8>, media_type: Option<String>) -> (p: Part)
        ensures
            p.name == name,
            p.bytes == bytes,
            p.media_type == media_type,
    {
        Part { name, bytes, media_type }
    }

    /// The whole content as one nameless part, with the media type it came
    /// with, parameters and all.
    pub fn whole(stream: &Stream) -> (p: Part)
        ensures
            p.name is None,
            p.bytes@ == stream.content(),
            text_view(p.media_type) == stream.declared_media_type(),
    {
        let media_type = match stream.media_type() {
            Some(m) => Some(m.to_owned()),
            None => None,
        };
        Part::new(None, vstd::slice::slice_to_vec(stream.bytes()), media_type)
    }
}

/// What a shape made of a Stream.
#[derive(Clone, Debug, PartialEq, Eq)]
pub struct Shaped {
    pub parts: Vec<Part>,
    /// The type the content announces, in the shape's own terms, when it
    /// announces one.
    pub message_type: Option<String>,
}

/// A message technology: how bytes become the parts of a Message.
///
/// Implemented by each technology, outside this library.
pub trait Shape: Send + Sync {
    /// The manifest leaf: `json`, `xml`, `multipart`, `edi-x12`, `binary`.
    fn technology(&self) -> &'static str;

    /// The media types this shape claims, lower-case, without parameters.
    fn media_types(&self) -> &'static [&'static str];

    /// Whether the bytes look like this shape, asked only when no media type
    /// says.
    fn recognises(&self, bytes: &[u8]) -> bool;

    /// The parts and the announced type, or why the content is not
    /// well-formed for this shape.
    fn shape(&self, stream: &Stream) -> Result<Shaped, ShapeError>;
}

/// Why content could not take a shape.
#[derive(Clone, Debug, PartialEq, Eq)]
pub struct ShapeError {
    pub technology: String,
    pub reason: String,
    /// Where in the bytes the reason was found, when it was found somewhere.
    pub offset: Option<usize>,
}

/// How a shape error reads: the technology, the reason and, when there is
/// one, the offset.
pub open spec fn shape_error_text(technology: Seq<char>, reason: Seq<char>, offset: Option<usize>) -> Seq<char> {
    match offset {
        Some(o) => technology + ": "@ + reason + " at byte "@ + decimal(o as nat),
        None => technology + ": "@ + reason,
    }
}

impl ShapeError {
    pub fn new(technology: &str, reason: &str) -> (e: ShapeError)
        ensures
            e.technology@ == technology@,
            e.reason@ == reason@,
            e.offset is None,
    {
        ShapeError { technology: technology.to_owned(), reason: reason.to_owned(), offset: None }
    }

    /// The same error, found at `offset`.
    pub fn at(self, offset: usize) -> (e: ShapeError)
        ensures
            e.technology == self.technology,
            e.reason == self.reason,
            e.offset == Some(offset),
    {
        ShapeError { offset: Some(offset), ..self }
    }

    /// The error as one line of text.
    pub fn to_string(&self) -> (s: String)
        ensures
            s@ == shape_error_text(self.technology@, self.reason@, self.offset),
    {
        let mut s = self.technology.clone();
        s.append(": ");
        s.append(self.reason.as_str());
        match self.offset {
            Some(o) => {
                s.append(" at byte ");
                push_decimal(&mut s, o);
            },
            None => {},
        }
        proof {
            reveal_strlit(": ");
            reveal_strlit(" at byte ");
        }
        s
    }
}

/// The media type a Stream is chosen by: what it declares, without
/// parameters, trimmed and lower-cased; `None` when that leaves nothing.
pub open spec fn chosen_media_type(declared: Option<Seq<char>>) -> Option<Seq<char>> {
    match declared {
        Some(m) => if essence(m).len() == 0 {
            None
        } else {
            Some(essence(m))
        },
        None => None,
    }
}

/// The media type of a Stream without its parameters, lower-case.
pub fn media_type_of(stream: &Stream) -> (r: Option<String>)
    ensures
        text_view(r) == chosen_media_type(stream.declared_media_type()),
{
    match stream.media_type() {
        Some(m) => {
            let e = media_type_essence(m);
            if e.as_str().is_empty() {
                None
            } else {
                Some(e)
            }
        },
        None => None,
    }
}

/// Whether `media` is among the media types a shape claims.
pub fn claims_media_type(claimed: &[&str], media: &str) -> (r: bool)
    ensures
        r == exists|j: int| 0 <= j < claimed@.len() && (#[trigger] claimed@[j])@ == media@,
{
    let mut j: usize = 0;
    while j < claimed.len()
        invariant
            j <= claimed@.len(),
            forall|i: int| 0 <= i < j ==> (#[trigger] claimed@[i])@ != media@,
        decreases claimed@.len() - j,
    {
        if same_text(claimed[j], media) {
            return true;
        }
        j = j + 1;
    }
    false
}

/// Whether the media types `shape` answers with may be a list that claims
/// `media` (`claims` true) or one that does not (`claims` false).
pub open spec fn may_claim<S: Shape + ?Sized>(shape: &S, media: Seq<char>, claims: bool) -> bool {
    exists|listed: &'static [&'static str]|
        #[trigger] call_ensures(S::media_types, (shape,), listed) && (exists|j: int|
            0 <= j < listed@.len() && (#[trigger] listed@[j])@ == media) == claims
}

/// Whether `shape`, asked about `bytes`, may answer `answer`.
pub open spec fn may_recognise<S: Shape + ?Sized>(shape: &S, bytes: Seq<u8>, answer: bool) -> bool {
    exists|b: &[u8]| b@ == bytes && #[trigger] call_ensures(S::recognises, (shape, b), answer)
}

/// Whether the shape at `k` is chosen by its claim: the media type is `Some`,
/// the shape at `k` claims it and none before it does.
pub open spec fn chosen_by_claim<'a, S: Shape + ?Sized>(
    shapes: Seq<&'a S>,
    media: Option<Seq<char>>,
    k: int,
) -> bool {
    &&& media is Some
    &&& may_claim(shapes[k], media->0, true)
    &&& forall|j: int| 0 <= j < k ==> may_claim(shapes[j], media->0, false)
}

/// Whether no shape claims the media type: trivially so when there is none.
pub open spec fn unclaimed<'a, S: Shape + ?Sized>(shapes: Seq<&'a S>, media: Option<Seq<char>>) -> bool {
    media matches Some(m) ==> forall|j: int| 0 <= j < shapes.len() ==> may_claim(shapes[j], m, false)
}

/// Whether the shape at `k` is chosen by the look of the bytes: nothing claims
/// the media type, the shape at `k` recognises the bytes and none before it
/// does.
pub open spec fn chosen_by_look<'a, S: Shape + ?Sized>(
    shapes: Seq<&'a S>,
    media: Option<Seq<char>>,
    bytes: Seq<u8>,
    k: int,
) -> bool {
    &&& unclaimed(shapes, media)
    &&& may_recognise(shapes[k], bytes, true)
    &&& forall|j: int| 0 <= j < k ==> may_recognise(shapes[j], bytes, false)
}

/// The shape for a Stream: the first, in the order given, that claims its
/// media type, else the first that recognises its bytes; `None` when nothing
/// does. Each shape is judged by what it answered when asked.
pub fn choose_shape<'a, S: Shape + ?Sized>(shapes: &[&'a S], stream: &Stream) -> (r: Option<&'a S>)
    ensures
        r matches Some(s) ==> exists|k: int|
            #![trigger shapes@[k]]
            0 <= k < shapes@.len() && s == shapes@[k] && (chosen_by_claim(
                shapes@,
                chosen_media_type(stream.declared_media_type()),
                k,
            ) || chosen_by_look(
                shapes@,
                chosen_media_type(stream.declared_media_type()),
                stream.content(),
                k,
            )),
        r is None ==> unclaimed(shapes@, chosen_media_type(stream.declared_media_type())),
        r is None ==> forall|i: int|
            0 <= i < shapes@.len() ==> may_recognise(shapes@[i], stream.content(), false),
{
    let ghost chosen = chosen_media_type(stream.declared_media_type());
    match media_type_of(stream) {
        Some(media) => {
            let mut i: usize = 0;
            while i < shapes.len()
                invariant
                    i <= shapes@.len(),
                    chosen == chosen_media_type(stream.declared_media_type()),
                    chosen == Some(media@),
                    forall|j: int| 0 <= j < i ==> may_claim(shapes@[j], media@, false),
                decreases shapes@.len() - i,
            {
                let listed = shapes[i].media_types();
                let claims = claims_media_type(listed, media.as_str());
                assert(may_claim(shapes@[i as int], media@, claims));
                if claims {
                    assert(chosen_by_claim(shapes@, chosen, i as int));
                    return Some(shapes[i]);
                }
                i = i + 1;
            }
        },
        None => {},
    }
    assert(unclaimed(shapes@, chosen));
    let bytes = stream.bytes();
    let mut i: usize = 0;
    while i < shapes.len()
        invariant
            i <= shapes@.len(),
            bytes@ == stream.content(),
            chosen == chosen_media_type(stream.declared_media_type()),
            unclaimed(shapes@, chosen),
            forall|j: int| 0 <= j < i ==> may_recognise(shapes@[j], stream.content(), false),
        decreases shapes@.len() - i,
    {
        let answer = shapes[i].recognises(bytes);
        assert(may_recognise(shapes@[i as int], stream.content(), answer));
        if answer {
            assert(chosen_by_look(shapes@, chosen, stream.content(), i as int));
            return Some(shapes[i]);
        }
        i = i + 1;
    }
    None
}

} // verus!
