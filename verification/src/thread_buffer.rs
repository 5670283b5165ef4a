//! The bounded byte queue between the capture thread and a sink
//! worker.
//!
//! This is the state that the worker's lock and condition variable
//! protect: an ordered byte buffer and a one-way `open`
//! flag.  The producer appends while the queue is open; `close` is the
//! single, irreversible transition to the closed state; the consumer
//! drains at most [`BUFFER_SIZE`] bytes at a time in first-in
//! first-out order, and observes the closed state exactly after every
//! buffered byte has been handed out or discarded.

use vstd::prelude::*;

use crate::error::Error;

verus! {

/// How many bytes the consumer takes from the queue per wakeup.
pub const BUFFER_SIZE: usize = 4096;

/// A sink that consumes byte slices; implemented by the playback and
/// broadcaster workers outside the library.
pub trait DataReceiver: Send {
    fn new_slice(&mut self, data: &[u8]) -> Result<(), Error>;
}

/// Abstract state of a queue: the bytes in flight and whether the
/// producer side is still open.
pub struct QueueView {
    pub open: bool,
    pub buffer: Seq<u8>,
}

/// What a write does to the abstract state: append while open, nothing
/// once closed.
pub open spec fn write_tr(v: QueueView, data: Seq<u8>) -> QueueView {
    if v.open {
        QueueView { open: true, buffer: v.buffer + data }
    } else {
        v
    }
}

/// What `close` does: the buffer is logically empty and the flag never
/// goes back.
pub open spec fn close_tr(v: QueueView) -> QueueView {
    QueueView { open: false, buffer: Seq::empty() }
}

/// How many bytes one drain takes from the front.
pub open spec fn drain_len(v: QueueView) -> int {
    if v.buffer.len() <= BUFFER_SIZE {
        v.buffer.len() as int
    } else {
        BUFFER_SIZE as int
    }
}

/// Result of one consumer wakeup.
#[derive(Clone, Copy, Debug, PartialEq, Eq, Structural)]
pub enum FillStatus {
    /// Bytes were moved into the consumer scratch.
    Filled,
    /// The queue is open but empty: the consumer should wait for the
    /// next write.
    Empty,
    /// The queue is closed and will stay closed: the consumer exits.
    Closed,
}

/// The byte queue itself.
pub struct ThreadQueue {
    open: bool,
    buf: Vec<u8>,
}

impl View for ThreadQueue {
    type V = QueueView;

    closed spec fn view(&self) -> QueueView {
        QueueView {
            open: self.open,
            buffer: if self.open {
                self.buf@
            } else {
                Seq::empty()
            },
        }
    }
}

impl ThreadQueue {
    /// A fresh queue: open and empty.
    pub fn new() -> (r: ThreadQueue)
        ensures
            r@.open,
            r@.buffer =~= Seq::<u8>::empty(),
    {
        ThreadQueue { open: true, buf: Vec::new() }
    }

    pub fn is_open(&self) -> (r: bool)
        ensures
            r == self@.open,
    {
        self.open
    }

    /// Appends `data` behind everything already queued; once the queue
    /// is closed the write is silently discarded.
    pub fn write_data(&mut self, data: &[u8])
        ensures
            final(self)@ == write_tr(old(self)@, data@),
    {
        if self.open {
            let mut i: usize = 0;
            while i < data.len()
                invariant
                    i <= data@.len(),
                    self.open == old(self).open,
                    self.open,
                    self.buf@ =~= old(self).buf@ + data@.take(i as int),
                decreases data@.len() - i,
            {
                self.buf.push(data[i]);
                i += 1;
            }
            proof {
                assert(data@.take(data@.len() as int) =~= data@);
                assert(final(self)@ =~= write_tr(old(self)@, data@));
            }
        } else {
            proof {
                assert(final(self)@ =~= write_tr(old(self)@, data@));
            }
        }
    }

    /// Closes the queue: a single, irreversible transition.  Every
    /// later write is a no-op and every later drain reports `Closed`.
    pub fn close(&mut self)
        ensures
            final(self)@ == close_tr(old(self)@),
    {
        self.open = false;
        self.buf.clear();
        proof {
            assert(final(self)@ =~= close_tr(old(self)@));
        }
    }

    /// One consumer wakeup: reports `Closed` on a closed queue,
    /// `Empty` on an open queue with nothing buffered, and otherwise
    /// moves the oldest `drain_len` bytes into `scratch`, preserving
    /// their order.
    pub fn fill_buffer(&mut self, scratch: &mut Vec<u8>) -> (status: FillStatus)
        ensures
            final(self)@.open == old(self)@.open,
            !old(self)@.open ==> status == FillStatus::Closed && *final(self) == *old(self)
                && final(scratch)@ == old(scratch)@,
            old(self)@.open && old(self)@.buffer.len() == 0 ==> status == FillStatus::Empty
                && *final(self) == *old(self) && final(scratch)@ == old(scratch)@,
            old(self)@.open && old(self)@.buffer.len() > 0 ==> {
                &&& status == FillStatus::Filled
                &&& final(scratch)@ == old(scratch)@ + old(self)@.buffer.take(
                    drain_len(old(self)@),
                )
                &&& final(self)@.buffer == old(self)@.buffer.skip(drain_len(old(self)@))
            },
    {
        if !self.open {
            return FillStatus::Closed;
        }
        if self.buf.len() == 0 {
            return FillStatus::Empty;
        }
        let k = if self.buf.len() <= BUFFER_SIZE {
            self.buf.len()
        } else {
            BUFFER_SIZE
        };
        let rest = self.buf.split_off(k);
        scratch.append(&mut self.buf);
        self.buf = rest;
        proof {
            assert(scratch@ =~= old(scratch)@ + old(self)@.buffer.take(drain_len(old(self)@)));
            assert(self@.buffer =~= old(self)@.buffer.skip(drain_len(old(self)@)));
        }
        FillStatus::Filled
    }
}

/// First-in first-out per sink: if the producer writes block `b1` and
/// then block `b2`, the queue holds everything already pending, then
/// `b1`, then `b2`, in that order; drains hand out strict prefixes, so
/// the consumer observes the blocks in exactly the order they were
/// written.
pub proof fn lemma_fifo_per_sink(v: QueueView, b1: Seq<u8>, b2: Seq<u8>)
    requires
        v.open,
    ensures
        write_tr(write_tr(v, b1), b2).buffer == v.buffer + b1 + b2,
        write_tr(write_tr(v, b1), b2).buffer.take(drain_len(write_tr(write_tr(v, b1), b2)))
            + write_tr(write_tr(v, b1), b2).buffer.skip(
            drain_len(write_tr(write_tr(v, b1), b2)),
        ) == v.buffer + b1 + b2,
{
    let w = write_tr(write_tr(v, b1), b2);
    assert(w.buffer =~= v.buffer + b1 + b2);
    assert(w.buffer.take(drain_len(w)) + w.buffer.skip(drain_len(w)) =~= w.buffer);
}

/// Queue safety: no write after `close` is ever observed.  Once closed
/// the queue is empty, stays closed under every further write, and a
/// consumer that saw `Closed` once will see it on every later wakeup.
pub proof fn lemma_no_write_after_close(v: QueueView, data: Seq<u8>)
    ensures
        !close_tr(v).open,
        close_tr(v).buffer.len() == 0,
        write_tr(close_tr(v), data) == close_tr(v),
{
}

} // verus!
