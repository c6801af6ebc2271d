//! What accumulates on a Message as it is handled.

use vstd::prelude::*;

verus! {

/// One value held in a Message's context.
#[derive(Clone, Debug, PartialEq, Eq)]
pub enum ContextValue {
    Text(String),
}

/// The context of a Message: named values, in the order they were added.
#[derive(Clone, Debug, PartialEq, Eq)]
pub struct MessageContext {
    entries: Vec<(String, ContextValue)>,
}

impl MessageContext {
    /// The named values, oldest first.
    pub closed spec fn entries(&self) -> Seq<(Seq<char>, ContextValue)> {
        self.entries@.map_values(|e: (String, ContextValue)| (e.0@, e.1))
    }

    /// An empty context.
    pub fn new() -> (c: MessageContext)
        ensures
            c.entries() == Seq::<(Seq<char>, ContextValue)>::empty(),
    {
        let c = MessageContext { entries: Vec::new() };
        assert(c.entries() =~= Seq::<(Seq<char>, ContextValue)>::empty());
        c
    }

    /// This context with `value` added under `key`.
    pub fn with_value(self, key: &str, value: ContextValue) -> (c: MessageContext)
        ensures
            c.entries() == self.entries().push((key@, value)),
    {
        let mut entries = self.entries;
        entries.push((key.to_owned(), value));
        let c = MessageContext { entries };
        assert(c.entries() =~= self.entries().push((key@, value)));
        c
    }
}

} // verus!
