//! Handles, which append and create readers, and readers, which receive the
//! log's messages from a position of their own.
use std::sync::{Arc, Mutex};
use std::task::Waker;
use futures::task::AtomicWaker;
use vstd::prelude::*;
use crate::external::{guarded, lock, share};
use crate::log::{wake_all, MsgStream};

verus! {

/// Why an operation on a log could not be carried out.
#[derive(Debug, Clone, Copy, PartialEq, Eq)]
pub enum StreamError {
    /// A thread panicked while it held the log; the log is no longer used.
    Poisoned,
    /// Every reader identifier has been handed out.
    ReadersExhausted,
}

/// A shared reference to one log; its copies all refer to the same log.
#[derive(Clone)]
pub struct MsgStreamHandle {
    inner: Arc<Mutex<MsgStream>>,
}

/// A fresh, empty log and a handle to it.
pub fn msg_stream() -> (r: MsgStreamHandle) {
    let stream = Arc::new(Mutex::new(MsgStream::new()));
    MsgStreamHandle { inner: stream }
}

impl MsgStreamHandle {
    /// A new reader on this handle's log at position 0, registered there
    /// under a fresh identifier with a fresh wake slot.
    pub fn reader(&self) -> (r: Result<MsgStreamReader, StreamError>)
        ensures
            r matches Ok(rd) ==> rd.pos() == 0 && rd.handle() == *self,
    {
        match lock(&self.inner) {
            Some(mut g) => {
                let log = guarded(&mut g);
                match log.register_reader() {
                    Some((reader_id, waker)) => Ok(
                        MsgStreamReader {
                            stream: MsgStreamHandle { inner: share(&self.inner) },
                            waker,
                            reader_id,
                            pos: 0,
                        },
                    ),
                    None => Err(StreamError::ReadersExhausted),
                }
            },
            None => Err(StreamError::Poisoned),
        }
    }

    /// Appends `msg` under the lock and gives the slots to wake.
    fn append_locked(&self, msg: Vec<u8>) -> (r: Result<Vec<Arc<AtomicWaker>>, StreamError>)
        ensures
            r is Err ==> r == Err::<Vec<Arc<AtomicWaker>>, StreamError>(StreamError::Poisoned),
    {
        match lock(&self.inner) {
            Some(mut g) => {
                let log = guarded(&mut g);
                Ok(log.append(msg))
            },
            None => Err(StreamError::Poisoned),
        }
    }

    /// Appends `msg` to the log, then, with the log released, wakes every
    /// reader that was registered at the append. The handle itself is left as
    /// it was.
    pub fn write(&mut self, msg: Vec<u8>) -> (r: Result<(), StreamError>)
        ensures
            *final(self) == *old(self),
            r is Err ==> r == Err::<(), StreamError>(StreamError::Poisoned),
    {
        match self.append_locked(msg) {
            Ok(slots) => {
                wake_all(&slots);
                Ok(())
            },
            Err(e) => Err(e),
        }
    }

    /// The number of readers registered with the log.
    pub fn reader_count(&self) -> (r: Result<usize, StreamError>)
        ensures
            r is Err ==> r == Err::<usize, StreamError>(StreamError::Poisoned),
    {
        match lock(&self.inner) {
            Some(mut g) => {
                let log = guarded(&mut g);
                Ok(log.reader_count())
            },
            None => Err(StreamError::Poisoned),
        }
    }
}

/// A cursor into a log, with a wake slot registered there under its identifier.
pub struct MsgStreamReader {
    stream: MsgStreamHandle,
    waker: Arc<AtomicWaker>,
    reader_id: usize,
    pos: usize,
}

impl MsgStreamReader {
    /// The position of the next message this reader receives.
    pub closed spec fn pos(&self) -> usize {
        self.pos
    }

    /// The identifier under which this reader is registered.
    pub closed spec fn id(&self) -> usize {
        self.reader_id
    }

    /// The handle of the log this reader reads.
    pub closed spec fn handle(&self) -> MsgStreamHandle {
        self.stream
    }

    /// The wake slot this reader registered with its log.
    pub closed spec fn slot(&self) -> Arc<AtomicWaker> {
        self.waker
    }

    /// The position of the next message this reader receives.
    pub fn position(&self) -> (r: usize)
        ensures
            r == self.pos(),
    {
        self.pos
    }

    /// Moves the reader to `pos`, backward or forward, without any check
    /// against the log's length; it stays on its log, with its slot.
    pub fn reset_pos(&mut self, pos: usize)
        ensures
            final(self).pos() == pos,
            final(self).id() == old(self).id(),
            final(self).handle() == old(self).handle(),
            final(self).slot() == old(self).slot(),
    {
        self.pos = pos;
    }

    /// A new reader on the same log at this reader's position, with an
    /// identifier and a wake slot of its own.
    pub fn clone(&self) -> (r: Result<Self, StreamError>)
        ensures
            r matches Ok(c) ==> c.pos() == self.pos() && c.handle() == self.handle(),
    {
        match self.stream.reader() {
            Ok(mut r) => {
                r.pos = self.pos;
                Ok(r)
            },
            Err(e) => Err(e),
        }
    }

    /// One attempt to receive: the message at this reader's position, which
    /// it then moves past. With none there yet, `waker` is put in this reader's
    /// wake slot before the log is released, so the next append wakes it.
    pub fn poll_recv(&mut self, waker: &Waker) -> (r: Result<Option<Arc<Vec<u8>>>, StreamError>)
        ensures
            r matches Ok(Some(_)) ==> final(self).pos() == old(self).pos() + 1,
            !(r matches Ok(Some(_))) ==> final(self).pos() == old(self).pos(),
            r is Err ==> r == Err::<Option<Arc<Vec<u8>>>, StreamError>(StreamError::Poisoned),
            final(self).id() == old(self).id(),
            final(self).handle() == old(self).handle(),
            final(self).slot() == old(self).slot(),
    {
        match lock(&self.stream.inner) {
            Some(mut g) => {
                let log = guarded(&mut g);
                let r = log.deliver(&mut self.pos);
                if r.is_none() {
                    self.waker.register(waker);
                }
                Ok(r)
            },
            None => Err(StreamError::Poisoned),
        }
    }
}

impl Drop for MsgStreamReader {
    /// Removes this reader's entry from its log's registry; a poisoned log is
    /// left alone.
    fn drop(&mut self)
        opens_invariants none
        no_unwind
    {
        match lock(&self.stream.inner) {
            Some(mut g) => {
                let log = guarded(&mut g);
                log.unregister_reader(self.reader_id);
            },
            None => {},
        }
    }
}

} // verus!
