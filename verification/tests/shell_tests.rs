use remote_session::errors::SshError;
use remote_session::shell::{ReaderAction, Shell};

fn streaming_shell() -> Shell {
    let mut sh = Shell::new();
    sh.on_pty_opened();
    sh.on_streaming();
    sh
}

#[test]
fn chunks_are_written_in_enqueue_order() {
    // "A", "B", "C" in that order, with induced transient would-block on
    // write: the same chunk stays at the front, nothing is reordered
    let mut sh = streaming_shell();
    sh.send(b"A".to_vec());
    sh.send(b"B".to_vec());
    sh.send(b"C".to_vec());

    assert_eq!(sh.writer_front().unwrap(), &b"A".to_vec());
    sh.on_write_would_block();
    assert_eq!(sh.writer_front().unwrap(), &b"A".to_vec());
    sh.on_write_ok();

    assert_eq!(sh.writer_front().unwrap(), &b"B".to_vec());
    sh.on_write_would_block();
    sh.on_write_would_block();
    assert_eq!(sh.writer_front().unwrap(), &b"B".to_vec());
    sh.on_write_ok();

    assert_eq!(sh.writer_front().unwrap(), &b"C".to_vec());
    sh.on_write_ok();

    assert_eq!(sh.writer_front(), None);
}

#[test]
fn sends_before_streaming_are_queued() {
    let mut sh = Shell::new();
    sh.on_pty_opened();
    sh.send(b"early".to_vec());
    sh.on_streaming();
    assert_eq!(sh.writer_front().unwrap(), &b"early".to_vec());
}

#[test]
fn reader_stops_after_close() {
    let mut sh = streaming_shell();
    assert_eq!(sh.reader_action(), ReaderAction::AwaitReadiness);
    let e = sh.on_read_closed();
    assert_eq!(e, SshError::ConnectionClosed);
    // closed exactly once; afterwards the reader terminates, it never spins
    assert_eq!(sh.reader_action(), ReaderAction::Stop);
    assert_eq!(sh.reader_action(), ReaderAction::Stop);
}

#[test]
fn write_closed_ends_the_writer() {
    let mut sh = streaming_shell();
    sh.send(b"x".to_vec());
    let e = sh.on_write_closed();
    assert_eq!(e, SshError::ConnectionClosed);
    assert_eq!(sh.reader_action(), ReaderAction::Stop);
}

#[test]
fn read_would_block_rearms() {
    let mut sh = streaming_shell();
    let data = b"output".to_vec();
    sh.on_read_data(&data);
    assert_eq!(sh.on_read_would_block(), ReaderAction::AwaitReadiness);
}

#[test]
fn resize_needs_an_open_shell() {
    let closed = Shell::new();
    assert_eq!(closed.resize(80, 24), Err(SshError::ShellNotOpen));
    let mut sh = Shell::new();
    sh.on_pty_opened();
    assert_eq!(sh.resize(80, 24), Ok((80, 24)));
    sh.on_streaming();
    assert_eq!(sh.resize(132, 43), Ok((132, 43)));
    let e = sh.on_read_closed();
    assert_eq!(e, SshError::ConnectionClosed);
    assert_eq!(sh.resize(80, 24), Err(SshError::ShellNotOpen));
}
