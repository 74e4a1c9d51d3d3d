//! The shared log: an append-only sequence of messages and the registry of
//! the readers' wake slots.
use std::sync::Arc;
use futures::task::AtomicWaker;
use vstd::prelude::*;
use crate::external::{retain_other_readers, share};

verus! {

/// What a log holds, as mathematics.
pub struct LogView {
    /// The messages, in the order they were appended.
    pub messages: Seq<Seq<u8>>,
    /// The registered readers, in the order of registration: each one's
    /// identifier and wake slot.
    pub readers: Seq<(usize, Arc<AtomicWaker>)>,
    /// The identifier that the next registered reader gets.
    pub next_reader: nat,
}

impl LogView {
    /// Every registered identifier was handed out before, so the next one is fresh.
    pub open spec fn wf(self) -> bool {
        forall|i: int| 0 <= i < self.readers.len() ==> (self.readers[i].0 as nat) < self.next_reader
    }
}

/// The message that a reader at `pos` is handed next, if the log has one there.
pub open spec fn message_at(messages: Seq<Seq<u8>>, pos: nat) -> Option<Seq<u8>> {
    if pos < messages.len() {
        Some(messages[pos as int])
    } else {
        None
    }
}

/// The registry once the reader `id` has left it.
pub open spec fn without_reader(readers: Seq<(usize, Arc<AtomicWaker>)>, id: usize) -> Seq<
    (usize, Arc<AtomicWaker>),
> {
    readers.filter(other_than(id))
}

/// The test that keeps the entries of every reader but `id`.
pub open spec fn other_than(id: usize) -> spec_fn((usize, Arc<AtomicWaker>)) -> bool {
    |e: (usize, Arc<AtomicWaker>)| e.0 != id
}

/// The wake slots of registry entries, in order.
pub open spec fn slots_of(entries: Seq<(usize, Arc<AtomicWaker>)>) -> Seq<Arc<AtomicWaker>> {
    entries.map_values(|e: (usize, Arc<AtomicWaker>)| e.1)
}

/// The contents of stored messages, in order.
pub open spec fn bytes_of(messages: Seq<Arc<Vec<u8>>>) -> Seq<Seq<u8>> {
    messages.map_values(|m: Arc<Vec<u8>>| m@)
}

/// Whether the registry entry `e` belongs to a reader other than `id`.
pub(crate) fn is_other_reader(e: &(usize, Arc<AtomicWaker>), id: usize) -> (r: bool)
    ensures
        r == other_than(id)(*e),
{
    e.0 != id
}

/// Wakes each of `slots`.
pub fn wake_all(slots: &Vec<Arc<AtomicWaker>>) {
    let mut i: usize = 0;
    while i < slots.len()
        invariant
            0 <= i <= slots.len(),
        decreases slots.len() - i,
    {
        slots[i].wake();
        i = i + 1;
    }
}

/// An append-only message log with a registry of wake slots, one per live reader.
pub struct MsgStream {
    messages: Vec<Arc<Vec<u8>>>,
    wakers: Vec<(usize, Arc<AtomicWaker>)>,
    reader_counter: usize,
}

impl View for MsgStream {
    type V = LogView;

    closed spec fn view(&self) -> LogView {
        LogView {
            messages: bytes_of(self.messages@),
            readers: self.wakers@,
            next_reader: self.reader_counter as nat,
        }
    }
}

impl MsgStream {
    /// An empty log whose first reader gets identifier 0.
    pub fn new() -> (r: Self)
        ensures
            r@.messages == Seq::<Seq<u8>>::empty(),
            r@.readers == Seq::<(usize, Arc<AtomicWaker>)>::empty(),
            r@.next_reader == 0,
            r@.wf(),
    {
        let r = MsgStream { messages: Vec::new(), wakers: Vec::new(), reader_counter: 0 };
        assert(r@.messages =~= Seq::<Seq<u8>>::empty());
        r
    }

    /// The number of messages appended so far.
    pub fn len(&self) -> (r: usize)
        ensures
            r == self@.messages.len(),
    {
        self.messages.len()
    }

    /// The number of registered readers.
    pub fn reader_count(&self) -> (r: usize)
        ensures
            r == self@.readers.len(),
    {
        self.wakers.len()
    }

    /// Appends `msg`, and gives the wake slots of the registered readers,
    /// in registration order, for the caller to wake once it has let go of
    /// the log.
    pub fn append(&mut self, msg: Vec<u8>) -> (r: Vec<Arc<AtomicWaker>>)
        ensures
            final(self)@.messages == old(self)@.messages.push(msg@),
            final(self)@.readers == old(self)@.readers,
            final(self)@.next_reader == old(self)@.next_reader,
            r@ == slots_of(old(self)@.readers),
    {
        let ghost before = self.messages@;
        self.messages.push(Arc::new(msg));
        assert(bytes_of(self.messages@) =~= bytes_of(before).push(msg@));
        let mut slots: Vec<Arc<AtomicWaker>> = Vec::new();
        let mut i: usize = 0;
        while i < self.wakers.len()
            invariant
                0 <= i <= self.wakers.len(),
                slots@ == slots_of(self.wakers@.subrange(0, i as int)),
            decreases self.wakers.len() - i,
        {
            slots.push(share(&self.wakers[i].1));
            i = i + 1;
            assert(slots@ =~= slots_of(self.wakers@.subrange(0, i as int)));
        }
        assert(self.wakers@.subrange(0, i as int) =~= self.wakers@);
        slots
    }

    /// Registers a new reader: a fresh identifier and an empty wake slot.
    /// Gives `None`, and leaves the log as it was, once every identifier has
    /// been handed out.
    pub fn register_reader(&mut self) -> (r: Option<(usize, Arc<AtomicWaker>)>)
        ensures
            r is Some <==> old(self)@.next_reader < usize::MAX,
            final(self)@.messages == old(self)@.messages,
            r matches Some((id, slot)) ==> final(self)@.readers == old(self)@.readers.push((id, slot))
                && id == old(self)@.next_reader
                && final(self)@.next_reader == old(self)@.next_reader + 1,
            r is None ==> final(self)@ == old(self)@,
            old(self)@.wf() ==> final(self)@.wf(),
    {
        if self.reader_counter == usize::MAX {
            return None;
        }
        let id = self.reader_counter;
        let slot = Arc::new(AtomicWaker::new());
        self.wakers.push((id, share(&slot)));
        self.reader_counter = id + 1;
        Some((id, slot))
    }

    /// Removes the reader `id` from the registry; an identifier that is not
    /// there leaves it unchanged.
    pub fn unregister_reader(&mut self, id: usize)
        ensures
            final(self)@.messages == old(self)@.messages,
            final(self)@.readers == without_reader(old(self)@.readers, id),
            final(self)@.next_reader == old(self)@.next_reader,
            old(self)@.wf() ==> final(self)@.wf(),
        opens_invariants none
        no_unwind
    {
        let ghost old_ids = self.wakers@;
        retain_other_readers(&mut self.wakers, id);
        proof {
            if old(self)@.wf() {
                assert forall|j: int| 0 <= j < self@.readers.len() implies (self@.readers[j].0 as nat)
                    < self@.next_reader by {
                    assert(old_ids.filter(other_than(id)).contains(self@.readers[j]));
                    old_ids.lemma_filter_contains_rev(other_than(id), self@.readers[j]);
                }
            }
        }
    }

    /// One receive step of a reader at `*pos`: the message there, and the
    /// position moved past it; with no message there, nothing and `*pos` as it was.
    pub fn deliver(&self, pos: &mut usize) -> (r: Option<Arc<Vec<u8>>>)
        ensures
            r is Some <==> message_at(self@.messages, *old(pos) as nat) is Some,
            r matches Some(m) ==> message_at(self@.messages, *old(pos) as nat) == Some(m@)
                && *final(pos) == *old(pos) + 1,
            r is None ==> *final(pos) == *old(pos),
    {
        let r = self.try_take(*pos);
        if *pos < self.messages.len() {
            *pos = *pos + 1;
        }
        r
    }

    /// The message at `pos`, if the log has one there.
    pub fn try_take(&self, pos: usize) -> (r: Option<Arc<Vec<u8>>>)
        ensures
            r is Some <==> message_at(self@.messages, pos as nat) is Some,
            r is Some ==> message_at(self@.messages, pos as nat) == Some(r->0@),
    {
        if pos < self.messages.len() {
            Some(self.messages[pos].clone())
        } else {
            None
        }
    }
}

} // verus!
