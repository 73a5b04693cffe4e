use ccout::{
    CaptureError, LockPoisoned, MemStdio, Stdio, StreamName, SwapFile, cap_stderr, cap_stdout,
    cap_string, capture, drain, puts, stderr_mut, stdout_mut,
};

#[test]
fn test_main() {
    let mut io = MemStdio::new();
    let r = cap_stdout(&mut io, |io: &mut MemStdio| {
        puts(io, StreamName::Output, "Hello, world!");
    })
    .unwrap();

    assert_eq!(r, "Hello, world!\n");
}

#[test]
fn two_lines_are_captured_in_order() {
    let mut io = MemStdio::new();
    let r = cap_stdout(&mut io, |io: &mut MemStdio| {
        puts(io, StreamName::Output, "Hello, world! 3");
        puts(io, StreamName::Output, "goodbye");
    })
    .unwrap();
    assert_eq!(r, "Hello, world! 3\ngoodbye\n");
}

#[test]
fn sequential_captures_do_not_mix() {
    let mut io = MemStdio::new();
    for i in 0..10 {
        let line = format!("Hello, world! {}", i);
        let r = cap_stdout(&mut io, |io: &mut MemStdio| {
            puts(io, StreamName::Output, &line);
            puts(io, StreamName::Output, "goodbye");
        })
        .unwrap();
        assert_eq!(r, format!("Hello, world! {}\ngoodbye\n", i));
    }
}

#[test]
fn raw_writes_are_concatenated() {
    let mut io = MemStdio::new();
    let r = cap_stdout(&mut io, |io: &mut MemStdio| {
        io.write(StreamName::Output, b"ab");
        io.write(StreamName::Output, b"");
        io.write(StreamName::Output, b"c");
        io.write(StreamName::Output, b"de");
    })
    .unwrap();
    assert_eq!(r, "abcde");
}

#[test]
fn nothing_written_captures_empty_text() {
    let mut io = MemStdio::new();
    let r = cap_stdout(&mut io, |_io: &mut MemStdio| {}).unwrap();
    assert_eq!(r, "");
}

#[test]
fn slot_and_lease_are_restored() {
    let mut io = MemStdio::new();
    let before = io.current(StreamName::Output);
    cap_stdout(&mut io, |io: &mut MemStdio| {
        assert_ne!(io.current(StreamName::Output), 0);
        puts(io, StreamName::Output, "x");
    })
    .unwrap();
    assert_eq!(io.current(StreamName::Output), before);
    assert_eq!(before, 0);
    assert!(!io.is_locked(0));
    let again = stdout_mut(&mut io);
    assert!(again.is_ok());
}

#[test]
fn original_is_locked_during_capture() {
    let mut io = MemStdio::new();
    cap_stdout(&mut io, |io: &mut MemStdio| {
        assert!(io.is_locked(0));
        assert!(!io.is_locked(1));
    })
    .unwrap();
    assert!(!io.is_locked(0));
}

#[test]
fn writes_after_capture_go_to_terminal() {
    let mut io = MemStdio::new();
    cap_stdout(&mut io, |io: &mut MemStdio| puts(io, StreamName::Output, "in")).unwrap();
    puts(&mut io, StreamName::Output, "out");
    assert_eq!(io.buffered(0).unwrap(), b"out\n".to_vec());
}

#[test]
fn error_stream_writes_are_not_captured_on_output() {
    let mut io = MemStdio::new();
    let r = cap_stdout(&mut io, |io: &mut MemStdio| {
        puts(io, StreamName::Output, "to out");
        puts(io, StreamName::Error, "to err");
    })
    .unwrap();
    assert_eq!(r, "to out\n");
    assert_eq!(io.buffered(1).unwrap(), b"to err\n".to_vec());
    assert_eq!(io.buffered(0).unwrap(), Vec::<u8>::new());
}

#[test]
fn capture_on_error_stream() {
    let mut io = MemStdio::new();
    let r = cap_stderr(&mut io, |io: &mut MemStdio| {
        puts(io, StreamName::Output, "plain");
        puts(io, StreamName::Error, "oops");
    })
    .unwrap();
    assert_eq!(r, "oops\n");
    assert_eq!(io.buffered(0).unwrap(), b"plain\n".to_vec());
    assert_eq!(io.current(StreamName::Error), 1);
}

#[test]
fn nested_capture_on_other_stream() {
    let mut io = MemStdio::new();
    let mut inner = String::new();
    let outer = cap_stdout(&mut io, |io: &mut MemStdio| {
        puts(io, StreamName::Output, "o");
        inner = cap_stderr(io, |io: &mut MemStdio| {
            puts(io, StreamName::Error, "e");
            puts(io, StreamName::Output, "o2");
        })
        .unwrap();
    })
    .unwrap();
    assert_eq!(outer, "o\no2\n");
    assert_eq!(inner, "e\n");
    assert_eq!(io.current(StreamName::Output), 0);
    assert_eq!(io.current(StreamName::Error), 1);
}

#[test]
fn poisoned_lease_gives_deadlock() {
    let mut io = MemStdio::new();
    let lease = stdout_mut(&mut io).unwrap();
    assert_eq!(lease.name(), StreamName::Output);
    io.poison(StreamName::Output);
    drop(lease);
    assert_eq!(
        stdout_mut(&mut io).err(),
        Some(LockPoisoned { stream: StreamName::Output })
    );
    let r = cap_stdout(&mut io, |io: &mut MemStdio| puts(io, StreamName::Output, "lost"));
    assert_eq!(r, Err(CaptureError::Deadlock));
    let e = cap_stderr(&mut io, |io: &mut MemStdio| puts(io, StreamName::Error, "kept")).unwrap();
    assert_eq!(e, "kept\n");
}

#[test]
fn poisoned_error_lease() {
    let mut io = MemStdio::new();
    let lease = stderr_mut(&mut io).unwrap();
    assert_eq!(lease.name(), StreamName::Error);
    io.poison(StreamName::Error);
    drop(lease);
    let r = cap_stderr(&mut io, |_io: &mut MemStdio| {});
    assert_eq!(r, Err(CaptureError::Deadlock));
}

#[test]
fn invalid_utf8_gives_decode_error() {
    let mut io = MemStdio::new();
    let r = cap_stdout(&mut io, |io: &mut MemStdio| io.write(StreamName::Output, &[0x66, 0xff]));
    assert_eq!(r, Err(CaptureError::Decode));
    assert_eq!(io.current(StreamName::Output), 0);
}

#[test]
fn utf8_text_is_decoded() {
    let mut io = MemStdio::new();
    let r = cap_stdout(&mut io, |io: &mut MemStdio| puts(io, StreamName::Output, "h\u{e9}llo"))
        .unwrap();
    assert_eq!(r, "h\u{e9}llo\n");
}

#[test]
fn unknown_reader_gives_io_error() {
    let mut io = MemStdio::new();
    assert_eq!(drain(&mut io, 7), Err(CaptureError::Io));
}

#[test]
fn capture_returns_reader_holding_text() {
    let mut io = MemStdio::new();
    let lease = stdout_mut(&mut io).unwrap();
    let rd = capture(&mut io, |io: &mut MemStdio| puts(io, StreamName::Output, "piped"), lease)
        .unwrap();
    assert_eq!(drain(&mut io, rd).unwrap(), "piped\n");
    assert_eq!(drain(&mut io, rd).unwrap(), "");
}

#[test]
fn cap_string_with_error_lease() {
    let mut io = MemStdio::new();
    let lease = stderr_mut(&mut io).unwrap();
    let r = cap_string(&mut io, |io: &mut MemStdio| puts(io, StreamName::Error, "e1"), lease)
        .unwrap();
    assert_eq!(r, "e1\n");
    assert!(stderr_mut(&mut io).is_ok());
}

#[test]
fn ending_a_swap_twice_closes_once() {
    let mut io = MemStdio::new();
    let lease = stdout_mut(&mut io).unwrap();
    let ends = io.pipe().unwrap();
    let mut swap = SwapFile::new(&mut io, ends.writer, lease).unwrap();
    let sub = io.current(StreamName::Output);
    assert!(io.is_open(sub));
    puts(&mut io, StreamName::Output, "once");
    assert_eq!(swap.end(&mut io), Ok(()));
    assert!(!io.is_open(sub));
    assert_eq!(io.current(StreamName::Output), 0);
    assert_eq!(swap.end(&mut io), Ok(()));
    assert_eq!(io.current(StreamName::Output), 0);
    assert_eq!(drain(&mut io, ends.reader).unwrap(), "once\n");
    assert!(stdout_mut(&mut io).is_ok());
}

#[test]
fn swap_with_unknown_writer_still_restores() {
    let mut io = MemStdio::new();
    let lease = stdout_mut(&mut io).unwrap();
    let mut swap = SwapFile::new(&mut io, 42, lease).unwrap();
    puts(&mut io, StreamName::Output, "nowhere");
    assert_eq!(swap.end(&mut io), Ok(()));
    assert_eq!(io.current(StreamName::Output), 0);
}
