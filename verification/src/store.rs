//! The latest text of every buffer, and the step that takes an update in.
//!
//! The store is changed through `&mut self` alone, so the reading of the
//! text before and the writing of the text after are one step for every
//! other user of the store: whoever shares a store among tasks puts it
//! behind a lock, and an update holds the lock for one call.

use vstd::prelude::*;
use vstd::hash_map::StringHashMap;
use crate::diff::{added, additions, can_compare, changeset_diffs, comparable};

verus! {

/// The last of a list of spans, if there is one.
pub open spec fn last_of(spans: Seq<Seq<char>>) -> Option<Seq<char>> {
    if spans.len() == 0 {
        None
    } else {
        Some(spans.last())
    }
}

/// The fragment that an update asks reactions for: nothing where the buffer
/// had no text before, and otherwise the last span that the text after
/// holds and the text before does not.
pub open spec fn fragment_of(previous: Option<Seq<char>>, current: Seq<char>) -> Option<Seq<char>> {
    match previous {
        None => None,
        Some(before) => last_of(added(changeset_diffs(before, current, "\n"@))),
    }
}

/// What a specification sees of an optional text.
pub open spec fn text_view(text: Option<String>) -> Option<Seq<char>> {
    match text {
        Some(t) => Some(t@),
        None => None,
    }
}

/// The text that `buffers` holds under `name`, if any.
pub open spec fn stored(buffers: Map<Seq<char>, Seq<char>>, name: Seq<char>) -> Option<Seq<char>> {
    if buffers.contains_key(name) {
        Some(buffers[name])
    } else {
        None
    }
}

/// Whether `content` can be taken in as the next text of the buffer `name`:
/// whether the buffer is new, or its text can be compared with `content`.
pub open spec fn accepts(buffers: Map<Seq<char>, Seq<char>>, name: Seq<char>, content: Seq<char>) -> bool {
    buffers.contains_key(name) ==> comparable(buffers[name], content)
}

/// The refusal of an update whose comparison with the text before would
/// take a table that cannot be laid out.
#[derive(Clone, Copy, Debug, PartialEq, Eq, Structural)]
pub struct TooLarge;

/// The latest known text of every buffer, by the buffer's name.
pub struct BufferStore {
    buffers: StringHashMap<String>,
}

impl View for BufferStore {
    type V = Map<Seq<char>, Seq<char>>;

    closed spec fn view(&self) -> Map<Seq<char>, Seq<char>> {
        self.buffers@.map_values(|text: String| text@)
    }
}

impl BufferStore {
    /// A store that knows no buffer.
    pub fn new() -> (store: BufferStore)
        ensures
            store@ == Map::<Seq<char>, Seq<char>>::empty(),
    {
        let store = BufferStore { buffers: StringHashMap::new() };
        store
    }

    /// Stores `content` as the text of the buffer `name` and returns the
    /// text that it replaces, or `None` where this is the first text of
    /// that buffer. No other buffer changes.
    pub fn update(&mut self, name: String, content: String) -> (previous: Option<String>)
        ensures
            text_view(previous) == stored(old(self)@, name@),
            final(self)@ == old(self)@.insert(name@, content@),
    {
        let previous = match self.buffers.get(name.as_str()) {
            Some(text) => Some(text.clone()),
            None => None,
        };
        self.buffers.insert(name, content);
        previous
    }

    /// Takes in an update: stores `content` as the text of the buffer
    /// `name`, and returns the fragment that reactions are asked for.
    ///
    /// The first text of a buffer is its baseline and gives no fragment.
    /// Every later text is compared line by line with the text that it
    /// replaces, and the last span that it added is the fragment. A text
    /// that adds nothing gives none.
    ///
    /// An update that cannot be compared with the text that it would
    /// replace is refused, and the store stays as it was.
    pub fn read_buffer(&mut self, name: String, content: String) -> (fragment: Result<
        Option<String>,
        TooLarge,
    >)
        ensures
            accepts(old(self)@, name@, content@) <==> fragment is Ok,
            fragment matches Ok(text) ==> final(self)@ == old(self)@.insert(name@, content@)
                && text_view(text) == fragment_of(stored(old(self)@, name@), content@),
            fragment is Err ==> final(self)@ == old(self)@,
            !old(self)@.contains_key(name@) ==> fragment == Ok::<Option<String>, TooLarge>(None),
            stored(old(self)@, name@) == Some(content@) && fragment is Ok ==> fragment
                == Ok::<Option<String>, TooLarge>(None),
    {
        let fragment = match self.buffers.get(name.as_str()) {
            Some(previous) => {
                if !can_compare(previous.as_str(), content.as_str()) {
                    return Err(TooLarge);
                }
                let mut spans = additions(previous.as_str(), content.as_str());
                spans.pop()
            },
            None => None,
        };
        self.buffers.insert(name, content);
        Ok(fragment)
    }
}

} // verus!
