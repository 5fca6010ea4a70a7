//! The session around a running command.
//!
//! A session holds the sending side of the input queue, the sender of the
//! output broadcast, a callback that asks for the child to be terminated, and
//! the handles of its three background tasks. It goes through three phases.
//! While it is active, callers obtain senders for the child's input and
//! subscriptions to its output. Tearing it down first asks for the child to
//! be terminated, which is what unblocks a reader stuck in a blocking read,
//! and only then stops the tasks. The callback is used up by its one call.
//! Each handle leaves its slot when the runtime is asked to cancel its task,
//! and is kept among the stopped ones from then on. So tearing a session down
//! twice does nothing the second time.

use vstd::prelude::*;

verus! {

/// `tokio::sync::mpsc::Sender`, carried through as an opaque value.
#[verifier::external_type_specification]
#[verifier::external_body]
#[verifier::reject_recursive_types(T)]
pub struct ExQueueSender<T>(tokio::sync::mpsc::Sender<T>);

/// `tokio::sync::broadcast::Sender`, carried through as an opaque value.
#[verifier::external_type_specification]
#[verifier::external_body]
#[verifier::reject_recursive_types(T)]
pub struct ExBroadcastSender<T>(tokio::sync::broadcast::Sender<T>);

/// `tokio::sync::broadcast::Receiver`, carried through as an opaque value.
#[verifier::external_type_specification]
#[verifier::external_body]
#[verifier::reject_recursive_types(T)]
pub struct ExBroadcastReceiver<T>(tokio::sync::broadcast::Receiver<T>);

/// `tokio::task::JoinHandle`, carried through as an opaque value.
#[verifier::external_type_specification]
#[verifier::external_body]
#[verifier::reject_recursive_types(T)]
pub struct ExJoinHandle<T>(tokio::task::JoinHandle<T>);

/// `tokio::task::JoinError`, which the handle's type mentions. No value of
/// it is made or read here.
#[verifier::external_type_specification]
#[verifier::external_body]
pub struct ExJoinError(tokio::task::JoinError);

/// The queue that a sender feeds. Two senders feed the same queue exactly
/// when tokio's `same_channel` says so; a sender feeds one queue for all of
/// its life.
pub uninterp spec fn queue_of(sender: tokio::sync::mpsc::Sender<Vec<u8>>) -> int;

/// The broadcast stream that a sender publishes to, fixed for the life of the
/// sender.
pub uninterp spec fn stream_of(sender: tokio::sync::broadcast::Sender<Vec<u8>>) -> int;

/// The broadcast stream that a receiver is subscribed to, fixed for the life
/// of the receiver.
pub uninterp spec fn source_of(receiver: tokio::sync::broadcast::Receiver<Vec<u8>>) -> int;

/// `tokio::sync::mpsc::Sender::clone`: the clone shares the channel of the
/// sender it was made from, so what is sent through it lands in the same
/// queue.
#[verifier::external_body]
fn clone_queue_sender(sender: &tokio::sync::mpsc::Sender<Vec<u8>>) -> (copy:
    tokio::sync::mpsc::Sender<Vec<u8>>)
    ensures
        queue_of(copy) == queue_of(*sender),
{
    sender.clone()
}

/// `tokio::sync::broadcast::Sender::subscribe`: the new receiver is attached
/// to the sender's channel. Which values it will see is not stated here; by
/// tokio's documentation those sent after this call. tokio panics where the
/// channel already has as many receivers as it can count, a quarter of the
/// address space, which no process holds.
#[verifier::external_body]
fn subscribe(sender: &tokio::sync::broadcast::Sender<Vec<u8>>) -> (receiver:
    tokio::sync::broadcast::Receiver<Vec<u8>>)
    ensures
        source_of(receiver) == stream_of(*sender),
{
    sender.subscribe()
}

/// `Debug` of `tokio::sync::mpsc::Sender`: the text shows the channel's
/// inner state as it is at the moment of the call, so nothing is claimed of
/// it.
#[verifier::external_body]
fn queue_sender_text(sender: &tokio::sync::mpsc::Sender<Vec<u8>>) -> (text: String) {
    format!("{:?}", sender)
}

/// The pretty form (`{:#?}`) of `Debug` of `tokio::sync::mpsc::Sender`: as
/// with the plain form, nothing is claimed of the text.
#[verifier::external_body]
fn queue_sender_pretty_text(sender: &tokio::sync::mpsc::Sender<Vec<u8>>) -> (text: String) {
    format!("{:#?}", sender)
}

/// `Debug` of `tokio::sync::broadcast::Sender`, which writes the sender's
/// type name and nothing of its state, in the plain form and in the pretty
/// form alike.
#[verifier::external_body]
fn broadcast_sender_text(sender: &tokio::sync::broadcast::Sender<Vec<u8>>) -> (text: String)
    ensures
        text@ == "broadcast::Sender"@,
{
    format!("{:?}", sender)
}

/// Whether the runtime was asked to cancel the task behind this handle. It
/// stands for the request and for nothing more: a task that had ended before
/// the request is not touched by it, and a task that runs blocking code
/// outside the runtime's reach runs on.
pub uninterp spec fn abort_requested(handle: tokio::task::JoinHandle<()>) -> bool;

/// `tokio::task::JoinHandle::abort`: asks the runtime to cancel the task.
/// The call returns at once; after it the request stands on the handle.
/// Nothing is claimed of when, or whether, the task ends.
#[verifier::external_body]
fn request_abort(handle: &mut tokio::task::JoinHandle<()>)
    ensures
        abort_requested(*final(handle)),
{
    handle.abort()
}

/// Asks the runtime to cancel the task behind `handle` and puts the handle
/// behind the tasks that were stopped before.
fn stop_task(stopped: &mut Vec<tokio::task::JoinHandle<()>>, handle: tokio::task::JoinHandle<()>)
    ensures
        final(stopped)@.len() == old(stopped)@.len() + 1,
        final(stopped)@.subrange(0, old(stopped)@.len() as int) == old(stopped)@,
        abort_requested(final(stopped)@[old(stopped)@.len() as int]),
{
    let mut handle = handle;
    request_abort(&mut handle);
    stopped.push(handle);
    assert(stopped@.subrange(0, old(stopped)@.len() as int) =~= old(stopped)@);
}

/// The text that describes a session whose two senders are described by
/// `writer_tx` and `output_tx`. The callback and the task handles have
/// nothing to show and are stood for by fixed words.
pub open spec fn session_text(writer_tx: Seq<char>, output_tx: Seq<char>) -> Seq<char> {
    "ExecCommandSession { writer_tx: "@ + writer_tx + ", output_tx: "@ + output_tx
        + ", killer: \"<killer function>\", reader_handle: \"<reader handle>\""@
        + ", writer_handle: \"<writer handle>\", wait_handle: \"<wait handle>\" }"@
}

/// Puts the description of a session together from the descriptions of its
/// two senders.
pub fn describe_session(writer_tx: &str, output_tx: &str) -> (text: String)
    ensures
        text@ == session_text(writer_tx@, output_tx@),
{
    let mut text = String::from_str("ExecCommandSession { writer_tx: ");
    text.append(writer_tx);
    text.append(", output_tx: ");
    text.append(output_tx);
    text.append(", killer: \"<killer function>\", reader_handle: \"<reader handle>\"");
    text.append(", writer_handle: \"<writer handle>\", wait_handle: \"<wait handle>\" }");
    text
}

/// `text` with each of its lines but the first moved in by four spaces: what
/// the text of a field looks like inside the pretty form of a struct.
pub open spec fn indented(text: Seq<char>) -> Seq<char>
    decreases text.len(),
{
    if text.len() == 0 {
        text
    } else if text.last() == '\n' {
        indented(text.drop_last()) + "\n    "@
    } else {
        indented(text.drop_last()) + seq![text.last()]
    }
}

/// Moves each line of `text` but the first in by four spaces.
pub fn indent(text: &str) -> (moved: String)
    ensures
        moved@ == indented(text@),
{
    let n = text.unicode_len();
    let mut moved = String::new();
    let mut i: usize = 0;
    while i < n
        invariant
            i <= n,
            n == text@.len(),
            moved@ == indented(text@.take(i as int)),
        decreases n - i,
    {
        let c = text.get_char(i);
        proof {
            let next = text@.take(i + 1);
            assert(next.drop_last() =~= text@.take(i as int));
            assert(next.last() == text@[i as int]);
        }
        if c == '\n' {
            moved.append("\n    ");
        } else {
            moved.append(text.substring_char(i, i + 1));
            assert(text@.subrange(i as int, i + 1) =~= seq![text@[i as int]]);
        }
        i += 1;
    }
    assert(text@.take(n as int) =~= text@);
    moved
}

/// The pretty form of the text that describes a session: every field on a
/// line of its own, the text of each sender moved in with it.
pub open spec fn session_pretty_text(writer_tx: Seq<char>, output_tx: Seq<char>) -> Seq<char> {
    "ExecCommandSession {\n    writer_tx: "@ + indented(writer_tx) + ",\n    output_tx: "@
        + indented(output_tx)
        + ",\n    killer: \"<killer function>\",\n    reader_handle: \"<reader handle>\""@
        + ",\n    writer_handle: \"<writer handle>\",\n    wait_handle: \"<wait handle>\",\n}"@
}

/// Puts the pretty description of a session together from the pretty
/// descriptions of its two senders.
pub fn describe_session_pretty(writer_tx: &str, output_tx: &str) -> (text: String)
    ensures
        text@ == session_pretty_text(writer_tx@, output_tx@),
{
    let writer_tx = indent(writer_tx);
    let output_tx = indent(output_tx);
    let mut text = String::from_str("ExecCommandSession {\n    writer_tx: ");
    text.append(writer_tx.as_str());
    text.append(",\n    output_tx: ");
    text.append(output_tx.as_str());
    text.append(",\n    killer: \"<killer function>\",\n    reader_handle: \"<reader handle>\"");
    text.append(",\n    writer_handle: \"<writer handle>\",\n    wait_handle: \"<wait handle>\",\n}");
    text
}

/// Where a session stands.
#[derive(Clone, Copy, Debug, PartialEq, Eq, Structural)]
pub enum SessionPhase {
    /// The child has not been asked to terminate.
    Active,
    /// Termination was requested; at least one background task has not been
    /// stopped yet.
    Draining,
    /// Termination was requested and every background task was stopped.
    Closed,
}

/// A running command with its input queue, its output broadcast and its
/// background tasks. `K` is the termination callback.
///
/// A session is torn down by [`ExecCommandSession::terminate`]. Letting go of
/// one without that leaves the child and the tasks running, so whoever owns a
/// session calls `terminate` before it goes out of scope, from its own
/// destructor where it has one.
pub struct ExecCommandSession<K: FnOnce() + Send + Sync> {
    /// Queue for writing bytes to the child's standard input.
    writer_tx: tokio::sync::mpsc::Sender<Vec<u8>>,
    /// Broadcast stream of the chunks read from the terminal.
    output_tx: tokio::sync::broadcast::Sender<Vec<u8>>,
    /// Asks for the child to be terminated. Taken when it is called.
    killer: Option<K>,
    /// The task that reads the terminal. Taken when it is stopped.
    reader_handle: Option<tokio::task::JoinHandle<()>>,
    /// The task that writes to the terminal. Taken when it is stopped.
    writer_handle: Option<tokio::task::JoinHandle<()>>,
    /// The task that waits for the child. Taken when it is stopped.
    wait_handle: Option<tokio::task::JoinHandle<()>>,
    /// The handles of the tasks that were stopped, in the order in which they
    /// were stopped.
    stopped: Vec<tokio::task::JoinHandle<()>>,
}

impl<K: FnOnce() + Send + Sync> ExecCommandSession<K> {
    /// The queue that carries input to the child.
    pub closed spec fn input_queue(&self) -> int {
        queue_of(self.writer_tx)
    }

    /// The stream on which the child's output is broadcast.
    pub closed spec fn output_stream(&self) -> int {
        stream_of(self.output_tx)
    }

    /// The termination callback, while it has not been called.
    pub closed spec fn killer(&self) -> Option<K> {
        self.killer
    }

    /// How many background tasks have not been stopped yet.
    pub closed spec fn running_tasks(&self) -> nat {
        let reader: nat = if self.reader_handle is Some { 1 } else { 0 };
        let writer: nat = if self.writer_handle is Some { 1 } else { 0 };
        let waiter: nat = if self.wait_handle is Some { 1 } else { 0 };
        reader + writer + waiter
    }

    /// The handles of the tasks that were stopped so far, in the order in
    /// which they were stopped.
    pub closed spec fn stopped_tasks(&self) -> Seq<tokio::task::JoinHandle<()>> {
        self.stopped@
    }

    /// Whether every task that counts as stopped was asked to end.
    pub open spec fn stopped_by_request(&self) -> bool {
        forall|i: int|
            0 <= i < self.stopped_tasks().len() ==> abort_requested(
                #[trigger] self.stopped_tasks()[i],
            )
    }

    pub open spec fn phase(&self) -> SessionPhase {
        if self.killer() is Some {
            SessionPhase::Active
        } else if self.running_tasks() > 0 {
            SessionPhase::Draining
        } else {
            SessionPhase::Closed
        }
    }

    /// The session's invariant: the callback, while it is there, may be
    /// called; no task is stopped before the callback was taken; and a task
    /// counts as stopped only once the runtime was asked to cancel it.
    pub closed spec fn wf(&self) -> bool {
        &&& self.killer matches Some(k) ==> {
            &&& k.requires(())
            &&& self.reader_handle is Some
            &&& self.writer_handle is Some
            &&& self.wait_handle is Some
        }
        &&& self.stopped_by_request()
    }

    /// A session around a child that runs, with its three tasks started.
    pub fn new(
        writer_tx: tokio::sync::mpsc::Sender<Vec<u8>>,
        output_tx: tokio::sync::broadcast::Sender<Vec<u8>>,
        killer: K,
        reader_handle: tokio::task::JoinHandle<()>,
        writer_handle: tokio::task::JoinHandle<()>,
        wait_handle: tokio::task::JoinHandle<()>,
    ) -> (session: Self)
        requires
            killer.requires(()),
        ensures
            session.wf(),
            session.phase() == SessionPhase::Active,
            session.killer() == Some(killer),
            session.running_tasks() == 3,
            session.stopped_tasks().len() == 0,
            session.input_queue() == queue_of(writer_tx),
            session.output_stream() == stream_of(output_tx),
    {
        ExecCommandSession {
            writer_tx,
            output_tx,
            killer: Some(killer),
            reader_handle: Some(reader_handle),
            writer_handle: Some(writer_handle),
            wait_handle: Some(wait_handle),
            stopped: Vec::new(),
        }
    }

    /// A sender for the child's input. Every sender handed out feeds the
    /// queue that the session was made with.
    pub fn writer_sender(&self) -> (sender: tokio::sync::mpsc::Sender<Vec<u8>>)
        ensures
            queue_of(sender) == self.input_queue(),
    {
        clone_queue_sender(&self.writer_tx)
    }

    /// A new subscription to the child's output.
    pub fn output_receiver(&self) -> (receiver: tokio::sync::broadcast::Receiver<Vec<u8>>)
        ensures
            source_of(receiver) == self.output_stream(),
    {
        subscribe(&self.output_tx)
    }

    /// A description of the session for logs, in the form that a derived
    /// `Debug` gives a struct. The two senders are shown as tokio shows them:
    /// the input queue with its inner state of the moment, the broadcast
    /// sender by its type name.
    pub fn debug_string(&self) -> (text: String)
        ensures
            exists|writer_tx: Seq<char>| text@ == session_text(writer_tx, "broadcast::Sender"@),
    {
        let writer_tx = queue_sender_text(&self.writer_tx);
        let output_tx = broadcast_sender_text(&self.output_tx);
        describe_session(writer_tx.as_str(), output_tx.as_str())
    }

    /// The same description in the pretty form, one field to a line.
    pub fn pretty_debug_string(&self) -> (text: String)
        ensures
            exists|writer_tx: Seq<char>|
                text@ == session_pretty_text(writer_tx, "broadcast::Sender"@),
    {
        let writer_tx = queue_sender_pretty_text(&self.writer_tx);
        let output_tx = broadcast_sender_text(&self.output_tx);
        describe_session_pretty(writer_tx.as_str(), output_tx.as_str())
    }

    /// Where the session stands.
    pub fn current_phase(&self) -> (phase: SessionPhase)
        ensures
            phase == self.phase(),
    {
        if self.killer.is_some() {
            SessionPhase::Active
        } else if self.reader_handle.is_some() || self.writer_handle.is_some()
            || self.wait_handle.is_some() {
            SessionPhase::Draining
        } else {
            SessionPhase::Closed
        }
    }

    /// How many tasks were stopped so far.
    pub fn stopped_count(&self) -> (count: usize)
        ensures
            count == self.stopped_tasks().len(),
    {
        self.stopped.len()
    }

    /// Asks for the child to be terminated, unless that was done before: the
    /// callback is taken out of the session and called. Calling it uses it
    /// up, so it is called at most once however often this is repeated. The
    /// tasks are left alone.
    pub fn request_termination(&mut self)
        requires
            old(self).wf(),
        ensures
            final(self).wf(),
            final(self).killer() is None,
            old(self).killer() matches Some(k) ==> k.ensures((), ()),
            old(self).killer() is None ==> *final(self) == *old(self),
            final(self).running_tasks() == old(self).running_tasks(),
            final(self).stopped_tasks() == old(self).stopped_tasks(),
            final(self).input_queue() == old(self).input_queue(),
            final(self).output_stream() == old(self).output_stream(),
    {
        let killer = self.killer.take();
        if let Some(k) = killer {
            k();
        }
        proof {
            assert forall|i: int| 0 <= i < self.stopped_tasks().len() implies abort_requested(
                #[trigger] self.stopped_tasks()[i],
            ) by {
                assert(abort_requested(old(self).stopped_tasks()[i]));
            }
        }
    }

    /// Stops every background task that has not been stopped yet: the
    /// runtime is asked to cancel each of them, the reader first, then the
    /// writer, then the waiter, and their handles join the stopped ones. This
    /// is only done to a session whose child was asked to terminate: stopping
    /// the tasks first could leave the child running with nobody to reap it.
    pub fn stop_tasks(&mut self)
        requires
            old(self).wf(),
            old(self).phase() != SessionPhase::Active,
        ensures
            final(self).wf(),
            final(self).phase() == SessionPhase::Closed,
            final(self).stopped_tasks().len() == old(self).stopped_tasks().len() + old(
                self,
            ).running_tasks(),
            old(self).stopped_tasks().is_prefix_of(final(self).stopped_tasks()),
            final(self).stopped_by_request(),
            old(self).phase() == SessionPhase::Closed ==> *final(self) == *old(self),
            final(self).input_queue() == old(self).input_queue(),
            final(self).output_stream() == old(self).output_stream(),
    {
        let reader = self.reader_handle.take();
        if let Some(handle) = reader {
            stop_task(&mut self.stopped, handle);
        }
        let ghost after_reader = self.stopped@;
        let writer = self.writer_handle.take();
        if let Some(handle) = writer {
            stop_task(&mut self.stopped, handle);
        }
        let ghost after_writer = self.stopped@;
        let waiter = self.wait_handle.take();
        if let Some(handle) = waiter {
            stop_task(&mut self.stopped, handle);
        }
        proof {
            let before = old(self).stopped@;
            let after = self.stopped@;
            assert(before =~= after_reader.subrange(0, before.len() as int));
            assert(after_reader =~= after_writer.subrange(0, after_reader.len() as int));
            assert(after_writer =~= after.subrange(0, after_writer.len() as int));
            assert(before =~= after.subrange(0, before.len() as int));
            assert forall|i: int| 0 <= i < after.len() implies abort_requested(
                #[trigger] self.stopped_tasks()[i],
            ) by {
                if i < before.len() {
                    assert(after[i] == before[i]);
                    assert(abort_requested(old(self).stopped_tasks()[i]));
                } else if i < after_reader.len() {
                    assert(after[i] == after_reader[i]);
                } else if i < after_writer.len() {
                    assert(after[i] == after_writer[i]);
                }
            }
        }
    }

    /// Tears the session down: requests termination, then stops the tasks, in
    /// that order. On a session that was torn down before, nothing is called
    /// and nothing changes.
    pub fn terminate(&mut self)
        requires
            old(self).wf(),
        ensures
            final(self).wf(),
            final(self).phase() == SessionPhase::Closed,
            old(self).killer() matches Some(k) ==> k.ensures((), ()),
            final(self).stopped_tasks().len() == old(self).stopped_tasks().len() + old(
                self,
            ).running_tasks(),
            old(self).stopped_tasks().is_prefix_of(final(self).stopped_tasks()),
            final(self).stopped_by_request(),
            old(self).phase() == SessionPhase::Closed ==> *final(self) == *old(self),
            final(self).input_queue() == old(self).input_queue(),
            final(self).output_stream() == old(self).output_stream(),
    {
        self.request_termination();
        self.stop_tasks();
    }
}

} // verus!
