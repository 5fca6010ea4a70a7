use pty_session::os_error::IoReturn;
use pty_session::tasks::on_read;
use pty_session::tasks::ReaderAction;
use pty_session::tasks::WriterEvent;
use pty_session::tasks::WriterPhase;
use pty_session::tasks::WriterTask;

fn read_of(count: isize) -> IoReturn {
    IoReturn { count, errno: 0 }
}

fn published(action: ReaderAction) -> Option<Vec<u8>> {
    match action {
        ReaderAction::Publish(chunk) => Some(chunk),
        ReaderAction::Stop => None,
    }
}

/// Runs the writer task against a terminal that takes at most `appetite`
/// bytes per write, and returns what the terminal took and how the task
/// ended.
fn pump(queue: Vec<Vec<u8>>, appetite: usize) -> (Vec<u8>, WriterPhase) {
    let mut terminal: Vec<u8> = Vec::new();
    let mut queue = queue.into_iter();
    let mut task = WriterTask::new();
    loop {
        match task.next_action() {
            WriterPhase::Idle => {
                let item = queue.next();
                task = task.step(WriterEvent::Dequeued(item));
            }
            WriterPhase::Writing => {
                let taken = task.pending().len().min(appetite);
                terminal.extend_from_slice(&task.pending()[..taken]);
                task = task.step(WriterEvent::Wrote(IoReturn { count: taken as isize, errno: 0 }));
            }
            WriterPhase::Stopped => return (terminal, WriterPhase::Stopped),
        }
    }
}

#[test]
fn a_read_is_published_verbatim() {
    let mut buf = [0u8; 1024];
    buf[..13].copy_from_slice(b"hello world\r\n");
    let chunk = published(on_read(&buf, read_of(13))).unwrap();
    assert_eq!(chunk, b"hello world\r\n".to_vec());
}

#[test]
fn escape_sequences_are_not_interpreted() {
    let bytes = [0x1bu8, b'[', b'2', b'J', 0x00, 0xff];
    let chunk = published(on_read(&bytes, read_of(6))).unwrap();
    assert_eq!(chunk, bytes.to_vec());
}

#[test]
fn a_full_buffer_is_one_chunk() {
    let buf = [7u8; 16];
    assert_eq!(published(on_read(&buf, read_of(16))), Some(vec![7u8; 16]));
}

#[test]
fn an_empty_read_stops_the_reader() {
    let buf = [1u8; 16];
    assert_eq!(published(on_read(&buf, read_of(0))), None);
}

#[test]
fn a_failed_read_stops_the_reader() {
    let buf = [1u8; 16];
    assert_eq!(published(on_read(&buf, IoReturn { count: -1, errno: 5 })), None);
}

#[test]
fn a_read_beyond_the_buffer_stops_the_reader() {
    let buf = [1u8; 16];
    assert_eq!(published(on_read(&buf, read_of(17))), None);
}

#[test]
fn a_new_writer_waits_for_input() {
    let task = WriterTask::new();
    assert_eq!(task.next_action(), WriterPhase::Idle);
    assert_eq!(task.pending(), &[] as &[u8]);
}

#[test]
fn a_buffer_is_written_in_full_before_the_next() {
    let task = WriterTask::new();
    let task = task.step(WriterEvent::Dequeued(Some(b"abcdef".to_vec())));
    assert_eq!(task.next_action(), WriterPhase::Writing);
    assert_eq!(task.pending(), b"abcdef");
    let task = task.step(WriterEvent::Wrote(IoReturn { count: 2, errno: 0 }));
    assert_eq!(task.next_action(), WriterPhase::Writing);
    assert_eq!(task.pending(), b"cdef");
    let task = task.step(WriterEvent::Wrote(IoReturn { count: 3, errno: 0 }));
    assert_eq!(task.next_action(), WriterPhase::Writing);
    assert_eq!(task.pending(), b"f");
    let task = task.step(WriterEvent::Wrote(IoReturn { count: 1, errno: 0 }));
    assert_eq!(task.next_action(), WriterPhase::Idle);
    assert_eq!(task.pending(), b"");
}

#[test]
fn input_reaches_the_terminal_byte_for_byte_and_in_order() {
    let queue = vec![b"ls -la\n".to_vec(), b"".to_vec(), b"echo hi\n".to_vec(), vec![0u8, 255, 27]];
    let expected: Vec<u8> = queue.concat();
    for appetite in [1usize, 2, 3, 5, 64] {
        let (terminal, end) = pump(queue.clone(), appetite);
        assert_eq!(terminal, expected);
        assert_eq!(end, WriterPhase::Stopped);
    }
}

#[test]
fn an_empty_buffer_leaves_the_writer_idle() {
    let task = WriterTask::new().step(WriterEvent::Dequeued(Some(Vec::new())));
    assert_eq!(task.next_action(), WriterPhase::Idle);
}

#[test]
fn a_closed_queue_stops_the_writer() {
    let task = WriterTask::new().step(WriterEvent::Dequeued(None));
    assert_eq!(task.next_action(), WriterPhase::Stopped);
}

#[test]
fn a_failed_write_stops_the_writer() {
    let task = WriterTask::new().step(WriterEvent::Dequeued(Some(b"abc".to_vec())));
    let task = task.step(WriterEvent::Wrote(IoReturn { count: -1, errno: 32 }));
    assert_eq!(task.next_action(), WriterPhase::Stopped);
    assert_eq!(task.pending(), b"abc");
}

#[test]
fn a_write_that_takes_nothing_stops_the_writer() {
    let task = WriterTask::new().step(WriterEvent::Dequeued(Some(b"abc".to_vec())));
    let task = task.step(WriterEvent::Wrote(IoReturn { count: 0, errno: 0 }));
    assert_eq!(task.next_action(), WriterPhase::Stopped);
}

#[test]
fn a_write_beyond_what_was_handed_over_stops_the_writer() {
    let task = WriterTask::new().step(WriterEvent::Dequeued(Some(b"abc".to_vec())));
    let task = task.step(WriterEvent::Wrote(IoReturn { count: 4, errno: 0 }));
    assert_eq!(task.next_action(), WriterPhase::Stopped);
    assert_eq!(task.pending(), b"abc");
}

#[test]
fn an_event_that_was_not_waited_for_changes_nothing() {
    let idle = WriterTask::new().step(WriterEvent::Wrote(IoReturn { count: 3, errno: 0 }));
    assert_eq!(idle.next_action(), WriterPhase::Idle);
    let writing = WriterTask::new().step(WriterEvent::Dequeued(Some(b"abc".to_vec())));
    let writing = writing.step(WriterEvent::Dequeued(Some(b"xyz".to_vec())));
    assert_eq!(writing.next_action(), WriterPhase::Writing);
    assert_eq!(writing.pending(), b"abc");
    let stopped = WriterTask::new().step(WriterEvent::Dequeued(None));
    let stopped = stopped.step(WriterEvent::Dequeued(Some(b"abc".to_vec())));
    assert_eq!(stopped.next_action(), WriterPhase::Stopped);
    assert_eq!(stopped.pending(), b"");
}
