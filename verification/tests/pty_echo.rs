use pty_session::android_pty::AndroidPty;
use pty_session::android_pty::AndroidPtyMaster;
use pty_session::android_pty::AndroidPtySlave;
use pty_session::android_pty::PtyProgress;
use pty_session::android_pty::PtyReport;
use pty_session::attach::ChildSetup;
use pty_session::attach::ChildSetupProgress;
use pty_session::os_error::IoReturn;
use pty_session::os_error::OsError;
use pty_session::os_error::SysReturn;
use pty_session::tasks::on_read;
use pty_session::tasks::ReaderAction;

/// A terminal driver that answers every call with success and hands out
/// descriptors in rising order.
struct Terminal {
    next_fd: i32,
    output: Vec<u8>,
}

impl Terminal {
    fn new() -> Terminal {
        Terminal { next_fd: 3, output: Vec::new() }
    }

    fn descriptor(&mut self) -> SysReturn {
        let fd = self.next_fd;
        self.next_fd += 1;
        SysReturn { ret: fd, errno: 0 }
    }

    fn create(&mut self) -> Result<(AndroidPtyMaster, AndroidPtySlave), OsError> {
        let mut pty = AndroidPty::new();
        let replies = vec![
            (self.descriptor(), None),
            (SysReturn { ret: 0, errno: 0 }, None),
            (SysReturn { ret: 0, errno: 0 }, None),
            (SysReturn { ret: 0, errno: 0 }, Some("/dev/pts/0".to_string())),
            (self.descriptor(), None),
        ];
        for (outcome, name) in replies {
            match pty.step(PtyReport { outcome, name }) {
                PtyProgress::Pending(next) => pty = next,
                PtyProgress::Ready(master, slave) => return Ok((master, slave)),
                PtyProgress::Failed { error, .. } => return Err(error),
            }
        }
        panic!("construction did not finish")
    }

    /// Runs `echo` with one argument: the line discipline turns the newline
    /// into a carriage return and a newline.
    fn echo(&mut self, argument: &str) {
        self.output.extend_from_slice(argument.as_bytes());
        self.output.extend_from_slice(b"\r\n");
    }

    fn read(&mut self, buf: &mut [u8]) -> IoReturn {
        let n = self.output.len().min(buf.len());
        buf[..n].copy_from_slice(&self.output[..n]);
        self.output.drain(..n);
        IoReturn { count: n as isize, errno: 0 }
    }
}

#[test]
fn test_android_pty_echo() {
    let mut terminal = Terminal::new();
    let (master, slave) = terminal.create().expect("Failed to create PTY");

    let reader = master.try_clone_reader(terminal.descriptor()).expect("Failed to clone reader");
    let _writer = master.take_writer().expect("Failed to take writer");

    let stdin = terminal.descriptor();
    let stdout = terminal.descriptor();
    let stderr = terminal.descriptor();
    let _child = slave.spawn_command(stdin, stdout, stderr).ok().expect("Failed to spawn command");
    let session = ChildSetup::start().step(SysReturn { ret: 100, errno: 0 });
    assert_eq!(session, ChildSetupProgress::Continue(ChildSetup::AcquireTerminal));
    let terminal_request = ChildSetup::AcquireTerminal.step(SysReturn { ret: -1, errno: 1 });
    assert_eq!(terminal_request, ChildSetupProgress::Run);
    terminal.echo("hello world");

    let mut buf = [0u8; 1024];
    let outcome = terminal.read(&mut buf);
    let n = reader.read(outcome).expect("Failed to read from PTY");
    let output = String::from_utf8_lossy(&buf[..n]);

    assert!(output.contains("hello world"));
}

#[test]
fn echoed_output_is_published_as_one_chunk() {
    let mut terminal = Terminal::new();
    terminal.echo("hello world");
    let mut buf = [0u8; 1024];
    let outcome = terminal.read(&mut buf);
    match on_read(&buf, outcome) {
        ReaderAction::Publish(chunk) => assert_eq!(chunk, b"hello world\r\n".to_vec()),
        ReaderAction::Stop => panic!("the reader stopped on a read of thirteen bytes"),
    }
    let end = terminal.read(&mut buf);
    assert!(matches!(on_read(&buf, end), ReaderAction::Stop));
}
