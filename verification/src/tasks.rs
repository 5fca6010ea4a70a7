//! What the background tasks of a session do with each read and each write.
//!
//! The reader task reads the terminal in a loop and publishes every
//! non-empty read as one output chunk. The writer task takes byte buffers
//! from the input queue, in order, and writes each to the terminal in full
//! before it takes the next. The blocking calls are made by whoever runs the
//! loops; the decisions are made here.

use vstd::prelude::*;
use vstd::slice::slice_subrange;
use vstd::slice::slice_to_vec;
use crate::os_error::IoReturn;

verus! {

/// What the reader task does after a read.
pub enum ReaderAction {
    /// Broadcast this chunk, then read again.
    Publish(Vec<u8>),
    /// Leave the loop.
    Stop,
}

/// The chunk that a read gives rise to: the bytes that the read put into the
/// buffer, verbatim. There is none where the read was empty, failed, or
/// claims more bytes than the buffer holds.
pub open spec fn chunk_of(buf: Seq<u8>, outcome: IoReturn) -> Option<Seq<u8>> {
    if 0 < outcome.count <= buf.len() {
        Some(buf.subrange(0, outcome.count as int))
    } else {
        None
    }
}

/// Decides what follows a blocking read into `buf` that returned `outcome`.
pub fn on_read(buf: &[u8], outcome: IoReturn) -> (action: ReaderAction)
    ensures
        match chunk_of(buf@, outcome) {
            Some(chunk) => action matches ReaderAction::Publish(bytes) && bytes@ == chunk,
            None => action is Stop,
        },
{
    match outcome.transferred() {
        Ok(n) => {
            if 0 < n && n <= buf.len() {
                ReaderAction::Publish(slice_to_vec(slice_subrange(buf, 0, n)))
            } else {
                ReaderAction::Stop
            }
        },
        Err(_) => ReaderAction::Stop,
    }
}

/// What the writer task does next.
#[derive(Clone, Copy, Debug, PartialEq, Eq, Structural)]
pub enum WriterPhase {
    /// Take the next buffer from the input queue.
    Idle,
    /// Write the unwritten rest of the current buffer.
    Writing,
    /// Leave the loop.
    Stopped,
}

/// What happened to the writer task.
pub enum WriterEvent {
    /// The input queue handed over its next buffer, or `None` once it was
    /// closed and empty.
    Dequeued(Option<Vec<u8>>),
    /// A blocking write of the unwritten rest returned.
    Wrote(IoReturn),
}

/// The writer task of a session.
///
/// Besides the buffer that it is writing, the task keeps two histories for
/// its contracts: all bytes that it has taken from the queue, and all bytes
/// that the terminal has taken from it.
pub struct WriterTask {
    phase: WriterPhase,
    current: Vec<u8>,
    written: usize,
    accepted: Ghost<Seq<u8>>,
    delivered: Ghost<Seq<u8>>,
}

impl WriterTask {
    pub closed spec fn phase(&self) -> WriterPhase {
        self.phase
    }

    /// The rest of the current buffer that the terminal has not taken yet.
    pub closed spec fn unwritten(&self) -> Seq<u8> {
        self.current@.skip(self.written as int)
    }

    /// Every byte taken from the input queue so far, in the order taken.
    pub closed spec fn accepted(&self) -> Seq<u8> {
        self.accepted@
    }

    /// Every byte that the terminal took so far, in the order taken.
    pub closed spec fn delivered(&self) -> Seq<u8> {
        self.delivered@
    }

    /// The task's invariant. What was delivered, followed by what is still
    /// unwritten, is what was accepted: nothing is lost, repeated or
    /// reordered on the way. The task waits for a buffer only when nothing
    /// is unwritten, and writes only when something is.
    pub closed spec fn wf(&self) -> bool {
        &&& self.written <= self.current@.len()
        &&& self.phase is Idle ==> self.written == self.current@.len()
        &&& self.phase is Writing ==> self.written < self.current@.len()
        &&& self.delivered@ + self.current@.skip(self.written as int) == self.accepted@
    }

    /// What [`WriterTask::step`] returns.
    ///
    /// A buffer that arrives while the task is idle is accepted whole; an
    /// empty one leaves the task idle. The end of the queue stops the task.
    /// A write that took some of the unwritten bytes delivers exactly the
    /// first `count` of them; the task goes on writing until none is left.
    /// A write that failed, took nothing, or claims more than it was handed
    /// stops the task. An event that the task did not wait for changes
    /// nothing.
    pub open spec fn leads_to(self, event: WriterEvent, next: WriterTask) -> bool {
        match (self.phase(), event) {
            (WriterPhase::Idle, WriterEvent::Dequeued(Some(buf))) => {
                &&& next.accepted() == self.accepted() + buf@
                &&& next.delivered() == self.delivered()
                &&& next.unwritten() == buf@
                &&& next.phase() == if buf@.len() == 0 {
                    WriterPhase::Idle
                } else {
                    WriterPhase::Writing
                }
            },
            (WriterPhase::Idle, WriterEvent::Dequeued(None)) => {
                &&& next.accepted() == self.accepted()
                &&& next.delivered() == self.delivered()
                &&& next.unwritten() == self.unwritten()
                &&& next.phase() == WriterPhase::Stopped
            },
            (WriterPhase::Writing, WriterEvent::Wrote(outcome)) => {
                if 0 < outcome.count <= self.unwritten().len() {
                    &&& next.accepted() == self.accepted()
                    &&& next.delivered() == self.delivered() + self.unwritten().take(
                        outcome.count as int,
                    )
                    &&& next.unwritten() == self.unwritten().skip(outcome.count as int)
                    &&& next.phase() == if outcome.count == self.unwritten().len() {
                        WriterPhase::Idle
                    } else {
                        WriterPhase::Writing
                    }
                } else {
                    &&& next.accepted() == self.accepted()
                    &&& next.delivered() == self.delivered()
                    &&& next.unwritten() == self.unwritten()
                    &&& next.phase() == WriterPhase::Stopped
                }
            },
            _ => next == self,
        }
    }

    /// A task that has taken nothing from the queue yet.
    pub fn new() -> (task: WriterTask)
        ensures
            task.wf(),
            task.phase() == WriterPhase::Idle,
            task.accepted() == Seq::<u8>::empty(),
            task.delivered() == Seq::<u8>::empty(),
            task.unwritten() == Seq::<u8>::empty(),
    {
        WriterTask {
            phase: WriterPhase::Idle,
            current: Vec::new(),
            written: 0,
            accepted: Ghost(Seq::empty()),
            delivered: Ghost(Seq::empty()),
        }
    }

    /// What the task does next.
    pub fn next_action(&self) -> (phase: WriterPhase)
        ensures
            phase == self.phase(),
    {
        self.phase
    }

    /// The bytes to hand to the next write.
    pub fn pending(&self) -> (bytes: &[u8])
        requires
            self.wf(),
        ensures
            bytes@ == self.unwritten(),
    {
        slice_subrange(self.current.as_slice(), self.written, self.current.len())
    }

    /// Takes an event and decides what follows.
    pub fn step(self, event: WriterEvent) -> (next: WriterTask)
        requires
            self.wf(),
        ensures
            next.wf(),
            self.leads_to(event, next),
    {
        match (self.phase, event) {
            (WriterPhase::Idle, WriterEvent::Dequeued(Some(buf))) => {
                let phase = if buf.len() == 0 {
                    WriterPhase::Idle
                } else {
                    WriterPhase::Writing
                };
                let ghost accepted = self.accepted@ + buf@;
                proof {
                    assert(self.current@.skip(self.written as int) =~= Seq::<u8>::empty());
                    assert(buf@.skip(0) =~= buf@);
                    assert(self.delivered@ + buf@ =~= self.accepted@ + buf@);
                }
                WriterTask {
                    phase,
                    current: buf,
                    written: 0,
                    accepted: Ghost(accepted),
                    delivered: self.delivered,
                }
            },
            (WriterPhase::Idle, WriterEvent::Dequeued(None)) => WriterTask {
                phase: WriterPhase::Stopped,
                current: self.current,
                written: self.written,
                accepted: self.accepted,
                delivered: self.delivered,
            },
            (WriterPhase::Writing, WriterEvent::Wrote(outcome)) => {
                let rest = self.current.len() - self.written;
                let taken: usize = match outcome.transferred() {
                    Ok(n) => if 0 < n && n <= rest {
                        n
                    } else {
                        0
                    },
                    Err(_) => 0,
                };
                if taken == 0 {
                    WriterTask {
                        phase: WriterPhase::Stopped,
                        current: self.current,
                        written: self.written,
                        accepted: self.accepted,
                        delivered: self.delivered,
                    }
                } else {
                    let phase = if taken == rest {
                        WriterPhase::Idle
                    } else {
                        WriterPhase::Writing
                    };
                    let ghost before = self.current@.skip(self.written as int);
                    let ghost delivered = self.delivered@ + before.take(taken as int);
                    proof {
                        assert(self.current@.skip(self.written + taken) =~= before.skip(
                            taken as int,
                        ));
                        assert(before =~= before.take(taken as int) + before.skip(taken as int));
                        assert(delivered + before.skip(taken as int) =~= self.delivered@
                            + before);
                    }
                    WriterTask {
                        phase,
                        current: self.current,
                        written: self.written + taken,
                        accepted: self.accepted,
                        delivered: Ghost(delivered),
                    }
                }
            },
            _ => self,
        }
    }

    /// Input reaches the child byte for byte and in order: at every moment
    /// the bytes that the terminal took are the bytes that were taken from
    /// the queue, short of the rest that is still to be written.
    pub proof fn lemma_delivered_in_order(self)
        requires
            self.wf(),
        ensures
            self.delivered() + self.unwritten() == self.accepted(),
            self.delivered().is_prefix_of(self.accepted()),
    {
        assert(self.delivered() =~= (self.delivered() + self.unwritten()).take(
            self.delivered().len() as int,
        ));
    }

    /// Each buffer is written in full before the next is taken: whenever the
    /// task waits for a buffer, every byte accepted so far has been
    /// delivered.
    pub proof fn lemma_idle_means_written_in_full(self)
        requires
            self.wf(),
            self.phase() is Idle,
        ensures
            self.delivered() == self.accepted(),
    {
        assert(self.unwritten() =~= Seq::<u8>::empty());
        assert(self.delivered() + self.unwritten() =~= self.delivered());
    }

    /// A step never takes back what was accepted or delivered: both
    /// histories only grow at their ends.
    pub proof fn lemma_histories_grow(self, event: WriterEvent, next: WriterTask)
        requires
            self.wf(),
            self.leads_to(event, next),
        ensures
            self.accepted().is_prefix_of(next.accepted()),
            self.delivered().is_prefix_of(next.delivered()),
    {
        assert(forall|a: Seq<u8>, b: Seq<u8>| #[trigger] (a + b).take(a.len() as int) =~= a);
        assert(self.accepted() =~= self.accepted().take(self.accepted().len() as int));
        assert(self.delivered() =~= self.delivered().take(self.delivered().len() as int));
    }

    /// A task that stops because the queue was closed has delivered every
    /// byte that was ever enqueued.
    pub proof fn lemma_closed_queue_is_drained(self, next: WriterTask)
        requires
            self.wf(),
            self.phase() is Idle,
            self.leads_to(WriterEvent::Dequeued(None), next),
        ensures
            next.phase() is Stopped,
            next.delivered() == next.accepted(),
    {
        self.lemma_idle_means_written_in_full();
    }
}

} // verus!
