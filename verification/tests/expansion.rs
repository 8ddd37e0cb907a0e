use macrotest::error::Error;
use macrotest::expand::{expand, ProcessOutcome};

fn exited(success: bool, stdout: &[u8], stderr: &[u8]) -> ProcessOutcome {
    ProcessOutcome::Exited {
        success,
        stdout: stdout.to_vec(),
        stderr: stderr.to_vec(),
    }
}

#[test]
fn successful_exit_returns_true_and_stdout() {
    let r = expand(exited(true, b"expanded source", b"warnings"));
    let (ok, bytes) = r.expect("a completed run is not a hard error");
    assert!(ok);
    assert_eq!(bytes, b"expanded source".to_vec());
}

#[test]
fn failed_exit_returns_false_and_stderr() {
    // A subprocess that exits with status 101.
    let r = expand(exited(false, b"partial stdout", b"error: macro expansion failed"));
    let (ok, bytes) = r.expect("a completed run is not a hard error");
    assert!(!ok);
    assert_eq!(bytes, b"error: macro expansion failed".to_vec());
}

#[test]
fn spawn_failure_is_a_hard_error() {
    let r = expand(ProcessOutcome::SpawnFailed {
        reason: "no such file or directory".to_string(),
    });
    match r {
        Err(Error::CargoExpandExecutionError(msg)) => {
            assert_eq!(msg, "no such file or directory");
        }
        _ => panic!("a spawn failure must surface as CargoExpandExecutionError"),
    }
}

#[test]
fn expansion_is_idempotent_for_equal_outcomes() {
    let first = expand(exited(true, b"same bytes", b""));
    let second = expand(exited(true, b"same bytes", b""));
    let (ok1, bytes1) = first.unwrap();
    let (ok2, bytes2) = second.unwrap();
    assert_eq!(ok1, ok2);
    assert_eq!(bytes1, bytes2);

    let first = expand(exited(false, b"", b"same diagnostics"));
    let second = expand(exited(false, b"", b"same diagnostics"));
    let (ok1, bytes1) = first.unwrap();
    let (ok2, bytes2) = second.unwrap();
    assert_eq!(ok1, ok2);
    assert_eq!(bytes1, bytes2);
}

#[test]
fn empty_streams_are_returned_as_empty() {
    let (ok, bytes) = expand(exited(true, b"", b"junk")).unwrap();
    assert!(ok);
    assert!(bytes.is_empty());
}
