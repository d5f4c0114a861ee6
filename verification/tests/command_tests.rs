use remote_session::command::{command_verdict, CommandRun, ExecEvent};
use remote_session::errors::SshError;

fn run_to_end(events: Vec<ExecEvent>) -> Option<Result<Vec<u8>, SshError>> {
    let mut m = CommandRun::new();
    let mut out = None;
    for ev in events {
        let r = m.step(ev);
        if r.is_some() {
            out = r;
            break;
        }
    }
    out
}

#[test]
fn clean_run_returns_trimmed_stdout() {
    // open, exec, stderr drained empty, stdout arrives, close
    let r = run_to_end(vec![
        ExecEvent::Completed,
        ExecEvent::Completed,
        ExecEvent::Completed,
        ExecEvent::Data(b"support\n".to_vec()),
        ExecEvent::Completed,
        ExecEvent::Completed,
    ]);
    assert_eq!(r, Some(Ok(b"support".to_vec())));
}

#[test]
fn would_block_is_absorbed_everywhere() {
    let r = run_to_end(vec![
        ExecEvent::WouldBlock,
        ExecEvent::Completed,
        ExecEvent::WouldBlock,
        ExecEvent::WouldBlock,
        ExecEvent::Completed,
        ExecEvent::WouldBlock,
        ExecEvent::Completed,
        ExecEvent::Data(b"  hello world \n".to_vec()),
        ExecEvent::WouldBlock,
        ExecEvent::Completed,
        ExecEvent::WouldBlock,
        ExecEvent::Completed,
    ]);
    assert_eq!(r, Some(Ok(b"hello world".to_vec())));
}

#[test]
fn stderr_text_fails_the_command() {
    // stderr with real content fails the run even though every operation
    // succeeded, and the stderr bytes are carried verbatim
    let r = run_to_end(vec![
        ExecEvent::Completed,
        ExecEvent::Completed,
        ExecEvent::Data(b"warning: x\n".to_vec()),
        ExecEvent::Completed,
    ]);
    assert_eq!(
        r,
        Some(Err(SshError::CommandFailure { stderr: b"warning: x\n".to_vec() }))
    );
}

#[test]
fn whitespace_only_stderr_is_success() {
    let r = run_to_end(vec![
        ExecEvent::Completed,
        ExecEvent::Completed,
        ExecEvent::Data(b" \r\n\t".to_vec()),
        ExecEvent::Completed,
        ExecEvent::Data(b"ok\n".to_vec()),
        ExecEvent::Completed,
        ExecEvent::Completed,
    ]);
    assert_eq!(r, Some(Ok(b"ok".to_vec())));
}

#[test]
fn stderr_chunks_accumulate() {
    let r = run_to_end(vec![
        ExecEvent::Completed,
        ExecEvent::Completed,
        ExecEvent::Data(b"No such".to_vec()),
        ExecEvent::WouldBlock,
        ExecEvent::Data(b" file".to_vec()),
        ExecEvent::Completed,
    ]);
    assert_eq!(
        r,
        Some(Err(SshError::CommandFailure { stderr: b"No such file".to_vec() }))
    );
}

#[test]
fn fatal_error_passes_through() {
    let r = run_to_end(vec![ExecEvent::Completed, ExecEvent::Fatal(SshError::ConnectionClosed)]);
    assert_eq!(r, Some(Err(SshError::ConnectionClosed)));
}

#[test]
fn verdict_on_local_commands() {
    assert_eq!(
        command_verdict(&b" hello \n".to_vec(), &b"".to_vec()),
        Ok(b"hello".to_vec())
    );
    assert_eq!(
        command_verdict(&b"ignored".to_vec(), &b"boom".to_vec()),
        Err(SshError::CommandFailure { stderr: b"boom".to_vec() })
    );
    // stderr that trims to nothing counts as silence
    assert_eq!(command_verdict(&b"".to_vec(), &b"\n \t".to_vec()), Ok(b"".to_vec()));
}
