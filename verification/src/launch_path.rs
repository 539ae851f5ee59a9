//! The launch-path store: one slot that holds the most recently observed
//! launch path.
//!
//! The store is an owned value. Whoever shares it between tasks puts it behind
//! a lock of their own; a write then replaces the whole text in one step, so a
//! reader sees either the text before the write or the text after it.

use vstd::prelude::*;

verus! {

/// The slot that holds the current launch path. It is empty until the first
/// write and afterwards holds the text of the latest write, verbatim.
#[derive(Debug)]
pub struct LaunchPathStore {
    path: String,
}

impl View for LaunchPathStore {
    type V = Seq<char>;

    /// The text that the store holds.
    closed spec fn view(&self) -> Seq<char> {
        self.path@
    }
}

/// What a store holds after `path` has been written to it, whatever it `held`
/// before: a write replaces, it never merges.
pub open spec fn written(held: Seq<char>, path: Seq<char>) -> Seq<char> {
    path
}

/// What a store that held `initial` holds once every text of `writes` has been
/// written to it, in the order in which the writes arrived.
pub open spec fn after_writes(initial: Seq<char>, writes: Seq<Seq<char>>) -> Seq<char>
    decreases writes.len(),
{
    if writes.len() == 0 {
        initial
    } else {
        written(after_writes(initial, writes.drop_last()), writes.last())
    }
}

impl LaunchPathStore {
    /// A store that no one has written to: it holds the empty text.
    pub fn new() -> (store: LaunchPathStore)
        ensures
            store@ == Seq::<char>::empty(),
    {
        LaunchPathStore { path: String::new() }
    }

    /// Returns a copy of the text that the store holds. The store is left as
    /// it is.
    pub fn read(&self) -> (path: String)
        ensures
            path@ == self@,
    {
        self.path.clone()
    }

    /// Replaces the text that the store holds by `path`.
    pub fn write(&mut self, path: String)
        ensures
            final(self)@ == written(old(self)@, path@),
            final(self)@ == path@,
    {
        self.path = path;
    }
}

impl Default for LaunchPathStore {
    fn default() -> (store: LaunchPathStore)
        ensures
            store@ == Seq::<char>::empty(),
    {
        LaunchPathStore::new()
    }
}

/// Answers the shell's query for the current launch path: a copy of what
/// `store` holds, empty where nothing was written yet.
pub fn get_launch_path(store: &LaunchPathStore) -> (path: String)
    ensures
        path@ == store@,
{
    store.read()
}

/// Publishes `url` as the current launch path of `store`.
pub fn set_launch_path(store: &mut LaunchPathStore, url: String)
    ensures
        final(store)@ == written(old(store)@, url@),
        final(store)@ == url@,
{
    store.write(url);
}

/// A store that has seen no write still holds what it held at first; for a
/// new store that is the empty text.
pub proof fn lemma_no_write_keeps_initial_text(initial: Seq<char>)
    ensures
        after_writes(initial, Seq::<Seq<char>>::empty()) == initial,
{
}

/// The last writer wins: after one or more writes the store holds the text of
/// the write that arrived last, whole. It is therefore one of the written
/// texts, and never a blend of two of them or of the text held before.
pub proof fn lemma_last_writer_wins(initial: Seq<char>, writes: Seq<Seq<char>>)
    requires
        writes.len() > 0,
    ensures
        after_writes(initial, writes) == writes.last(),
        writes.contains(after_writes(initial, writes)),
{
    assert(writes[writes.len() - 1] == writes.last());
}

} // verus!
