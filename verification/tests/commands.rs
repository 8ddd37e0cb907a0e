use macrotest::command::{cargo, expand_command, metadata_command, raw_cargo};
use macrotest::project::{Name, Project};

fn sample_project() -> Project {
    Project {
        dir: "/tmp/generated".to_string(),
        target_dir: "/tmp/generated/target".to_string(),
        name: "aggregate_entry".to_string(),
    }
}

#[test]
fn default_program_is_cargo() {
    let spec = raw_cargo(None);
    assert_eq!(spec.program, "cargo");
    assert!(spec.current_dir.is_none());
    assert!(spec.env.is_empty());
    assert!(spec.args.is_empty());
}

#[test]
fn program_override_is_respected() {
    let spec = raw_cargo(Some("/toolchains/cargo-nightly".to_string()));
    assert_eq!(spec.program, "/toolchains/cargo-nightly");
}

#[test]
fn scoped_invocation_isolates_the_artifact_directory() {
    let spec = cargo(&sample_project(), None, Vec::new());
    assert_eq!(spec.current_dir.as_deref(), Some("/tmp/generated"));
    assert_eq!(spec.env.len(), 1);
    assert_eq!(spec.env[0].0, "CARGO_TARGET_DIR");
    assert_eq!(spec.env[0].1, "/tmp/generated/target/tests/target");
}

#[test]
fn toolchain_flags_follow_the_artifact_override_in_order() {
    let flags = vec![
        ("RUSTFLAGS".to_string(), "--cfg=expansion".to_string()),
        ("RUSTC_BOOTSTRAP".to_string(), "1".to_string()),
    ];
    let spec = cargo(&sample_project(), None, flags.clone());
    assert_eq!(spec.env.len(), 3);
    assert_eq!(spec.env[1], flags[0]);
    assert_eq!(spec.env[2], flags[1]);
}

#[test]
fn expand_arguments_name_the_test_case_and_a_neutral_theme() {
    let name = Name("case_one".to_string());
    let spec = expand_command(&sample_project(), name.as_str(), None, Vec::new());
    assert_eq!(
        spec.args,
        vec!["expand", "--bin", "case_one", "--theme", "none"]
    );
}

#[test]
fn warm_up_expansion_targets_the_aggregate_entry_point() {
    let project = sample_project();
    let spec = expand_command(&project, project.name.as_str(), None, Vec::new());
    assert_eq!(
        spec.args,
        vec!["expand", "--bin", "aggregate_entry", "--theme", "none"]
    );
    assert_eq!(spec.env[0].1, "/tmp/generated/target/tests/target");
}

#[test]
fn metadata_query_uses_the_pinned_format_version() {
    let spec = metadata_command(None);
    assert_eq!(spec.program, "cargo");
    assert_eq!(spec.args, vec!["metadata", "--format-version=1"]);
    assert!(spec.current_dir.is_none());
    assert!(spec.env.is_empty());
}
