use pty_session::android_pty::AndroidPty;
use pty_session::android_pty::AndroidPtyMaster;
use pty_session::android_pty::AndroidPtySlave;
use pty_session::android_pty::PtyProgress;
use pty_session::android_pty::PtyReport;
use pty_session::os_error::IoReturn;
use pty_session::os_error::OsError;
use pty_session::os_error::SysReturn;

fn pair(master_fd: i32, slave_fd: i32, path: &str) -> (AndroidPtyMaster, AndroidPtySlave) {
    let replies = vec![
        (SysReturn { ret: master_fd, errno: 0 }, None),
        (SysReturn { ret: 0, errno: 0 }, None),
        (SysReturn { ret: 0, errno: 0 }, None),
        (SysReturn { ret: 0, errno: 0 }, Some(path.to_string())),
        (SysReturn { ret: slave_fd, errno: 0 }, None),
    ];
    let mut pty = AndroidPty::new();
    for (outcome, name) in replies {
        match pty.step(PtyReport { outcome, name }) {
            PtyProgress::Pending(next) => pty = next,
            PtyProgress::Ready(master, slave) => return (master, slave),
            PtyProgress::Failed { .. } => panic!("construction failed"),
        }
    }
    panic!("construction did not finish")
}

#[test]
fn reader_owns_the_duplicate() {
    let (master, _slave) = pair(5, 6, "/dev/pts/3");
    let reader = master.try_clone_reader(SysReturn { ret: 9, errno: 0 }).ok().unwrap();
    assert_eq!(reader.raw_fd(), 9);
    assert_eq!(master.raw_fd(), 5);
}

#[test]
fn many_readers_each_own_a_duplicate() {
    let (master, _slave) = pair(5, 6, "/dev/pts/3");
    let a = master.try_clone_reader(SysReturn { ret: 9, errno: 0 }).ok().unwrap();
    let b = master.try_clone_reader(SysReturn { ret: 10, errno: 0 }).ok().unwrap();
    assert_eq!(a.raw_fd(), 9);
    assert_eq!(b.raw_fd(), 10);
}

#[test]
fn failed_duplication_gives_no_reader() {
    let (master, _slave) = pair(5, 6, "/dev/pts/3");
    let r = master.try_clone_reader(SysReturn { ret: -1, errno: 24 });
    assert_eq!(r.err(), Some(OsError { code: 24 }));
    assert_eq!(master.raw_fd(), 5);
}

#[test]
fn writer_takes_over_the_master_descriptor() {
    let (master, _slave) = pair(5, 6, "/dev/pts/3");
    let writer = master.take_writer().ok().unwrap();
    assert_eq!(writer.raw_fd(), 5);
}

#[test]
fn slave_keeps_descriptor_and_path() {
    let (_master, slave) = pair(5, 6, "/dev/pts/3");
    assert_eq!(slave.raw_fd(), 6);
    assert_eq!(slave.path(), "/dev/pts/3");
}

#[test]
fn read_reports_the_number_of_bytes() {
    let (master, _slave) = pair(5, 6, "/dev/pts/3");
    let reader = master.try_clone_reader(SysReturn { ret: 9, errno: 0 }).ok().unwrap();
    assert_eq!(reader.read(IoReturn { count: 12, errno: 0 }), Ok(12));
}

#[test]
fn read_of_zero_bytes_is_the_end_of_the_stream() {
    let (master, _slave) = pair(5, 6, "/dev/pts/3");
    let reader = master.try_clone_reader(SysReturn { ret: 9, errno: 0 }).ok().unwrap();
    assert_eq!(reader.read(IoReturn { count: 0, errno: 0 }), Ok(0));
}

#[test]
fn failed_read_surfaces_the_error() {
    let (master, _slave) = pair(5, 6, "/dev/pts/3");
    let reader = master.try_clone_reader(SysReturn { ret: 9, errno: 0 }).ok().unwrap();
    assert_eq!(reader.read(IoReturn { count: -1, errno: 5 }), Err(OsError { code: 5 }));
}

#[test]
fn write_reports_the_number_of_bytes() {
    let (master, _slave) = pair(5, 6, "/dev/pts/3");
    let writer = master.take_writer().ok().unwrap();
    assert_eq!(writer.write(IoReturn { count: 3, errno: 0 }), Ok(3));
    assert_eq!(writer.write(IoReturn { count: -1, errno: 32 }), Err(OsError { code: 32 }));
}

#[test]
fn flush_fails_only_on_minus_one() {
    let (master, _slave) = pair(5, 6, "/dev/pts/3");
    let writer = master.take_writer().ok().unwrap();
    assert_eq!(writer.flush(SysReturn { ret: 0, errno: 0 }), Ok(()));
    assert_eq!(writer.flush(SysReturn { ret: -1, errno: 22 }), Err(OsError { code: 22 }));
    assert_eq!(writer.flush(SysReturn { ret: 0, errno: 22 }), Ok(()));
}

#[test]
fn readings_of_a_return_value() {
    let zero = SysReturn { ret: 0, errno: 7 };
    let minus = SysReturn { ret: -1, errno: 7 };
    let two = SysReturn { ret: 2, errno: 7 };
    assert_eq!(zero.status(), Ok(()));
    assert_eq!(minus.status(), Err(OsError { code: 7 }));
    assert_eq!(two.status(), Err(OsError { code: 7 }));
    assert_eq!(zero.descriptor(), Ok(0));
    assert_eq!(minus.descriptor(), Err(OsError { code: 7 }));
    assert_eq!(two.descriptor(), Ok(2));
    assert_eq!(zero.completion(), Ok(()));
    assert_eq!(minus.completion(), Err(OsError { code: 7 }));
    assert_eq!(two.completion(), Ok(()));
    assert_eq!(IoReturn { count: 1024, errno: 7 }.transferred(), Ok(1024));
    assert_eq!(IoReturn { count: -1, errno: 7 }.transferred(), Err(OsError { code: 7 }));
}
