use macrotest::error::Error;
use macrotest::expand::ProcessOutcome;
use macrotest::metadata::metadata;

fn exited_with_stdout(stdout: &[u8]) -> ProcessOutcome {
    ProcessOutcome::Exited {
        success: true,
        stdout: stdout.to_vec(),
        stderr: Vec::new(),
    }
}

#[test]
fn valid_payload_yields_both_fields() {
    let payload = br#"{"target_directory":"/work/target","workspace_root":"/work"}"#;
    let m = metadata(exited_with_stdout(payload)).expect("valid payload must parse");
    assert_eq!(m.target_directory, "/work/target");
    assert_eq!(m.workspace_root, "/work");
    assert!(!m.target_directory.is_empty());
    assert!(!m.workspace_root.is_empty());
}

#[test]
fn unknown_payload_fields_are_ignored() {
    let payload = br#"{"packages":[{"name":"x"}],"workspace_root":"/w","version":1,"target_directory":"/w/target"}"#;
    let m = metadata(exited_with_stdout(payload)).expect("extra fields must not break the parse");
    assert_eq!(m.target_directory, "/w/target");
    assert_eq!(m.workspace_root, "/w");
}

#[test]
fn missing_required_field_is_rejected() {
    let payload = br#"{"target_directory":"/work/target"}"#;
    match metadata(exited_with_stdout(payload)) {
        Err(Error::CargoMetadata) => {}
        _ => panic!("a payload without workspace_root must yield CargoMetadata"),
    }
}

#[test]
fn non_string_field_is_rejected() {
    let payload = br#"{"target_directory":7,"workspace_root":"/w"}"#;
    match metadata(exited_with_stdout(payload)) {
        Err(Error::CargoMetadata) => {}
        _ => panic!("a non-string path field must yield CargoMetadata"),
    }
}

#[test]
fn malformed_payload_is_rejected() {
    match metadata(exited_with_stdout(b"not json at all")) {
        Err(Error::CargoMetadata) => {}
        _ => panic!("unparseable bytes must yield CargoMetadata"),
    }
}

#[test]
fn empty_payload_is_rejected() {
    match metadata(exited_with_stdout(b"")) {
        Err(Error::CargoMetadata) => {}
        _ => panic!("empty output must yield CargoMetadata"),
    }
}

#[test]
fn spawn_failure_is_reported_with_its_description() {
    let outcome = ProcessOutcome::SpawnFailed {
        reason: "permission denied".to_string(),
    };
    match metadata(outcome) {
        Err(Error::Cargo(msg)) => assert_eq!(msg, "permission denied"),
        _ => panic!("a spawn failure must surface as Cargo"),
    }
}
