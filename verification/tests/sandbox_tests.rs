use std::io::Write;

use ageis_core::sandbox::Sandbox;

fn canonical(path: &std::path::Path) -> String {
    dunce::canonicalize(path).unwrap().to_str().unwrap().to_owned()
}

#[test]
fn test_denied_path() {
    let dir = tempfile::tempdir().unwrap();
    let workspace = dir.path().to_str().unwrap();
    let sandbox = Sandbox::new(workspace).unwrap();

    assert!(!sandbox.is_path_allowed("/etc/passwd"));
}

#[test]
fn allowed_path_inside_workspace() {
    let dir = tempfile::tempdir().unwrap();
    let workspace = dir.path().to_str().unwrap();
    let sandbox = Sandbox::new(workspace).unwrap();

    let mut file = tempfile::NamedTempFile::new_in(dir.path()).unwrap();
    file.write_all(b"hello").unwrap();

    assert!(sandbox.is_path_allowed(file.path().to_str().unwrap()));
    assert!(sandbox.is_path_allowed(workspace));
}

#[test]
fn nonexistent_path_is_denied() {
    let dir = tempfile::tempdir().unwrap();
    let workspace = dir.path().to_str().unwrap();
    let sandbox = Sandbox::new(workspace).unwrap();

    let missing = format!("{}/no-such-file.txt", workspace);
    assert!(!sandbox.is_path_allowed(&missing));
}

#[test]
fn traversal_outside_workspace_is_denied() {
    // Workspace nested inside a parent directory; a real file sits beside
    // it, outside the workspace.
    let parent = tempfile::tempdir().unwrap();
    let workspace_dir = tempfile::tempdir_in(parent.path()).unwrap();
    let workspace = workspace_dir.path().to_str().unwrap();
    let sandbox = Sandbox::new(workspace).unwrap();

    let mut outside = tempfile::NamedTempFile::new_in(parent.path()).unwrap();
    outside.write_all(b"secret").unwrap();
    let outside_name = outside.path().file_name().unwrap().to_str().unwrap();

    // The request path dives out of the workspace with `..` and
    // canonicalizes to the sibling file: it must be denied.
    let escape = format!("{}/../{}", workspace, outside_name);
    assert!(!sandbox.is_path_allowed(&escape));

    let gate = sandbox.access_gate(&escape);
    let err = gate.unwrap_err();
    assert!(err.contains("outside"));
    assert_eq!(err, format!("DENIED: '{}' is outside Agent_Workspace", escape));
}

#[test]
fn denial_checks_are_idempotent() {
    let dir = tempfile::tempdir().unwrap();
    let workspace = dir.path().to_str().unwrap();
    let sandbox = Sandbox::new(workspace).unwrap();

    let mut file = tempfile::NamedTempFile::new_in(dir.path()).unwrap();
    file.write_all(b"hello").unwrap();
    let inside = file.path().to_str().unwrap();

    let first_outside = sandbox.is_path_allowed("/etc/passwd");
    let second_outside = sandbox.is_path_allowed("/etc/passwd");
    assert_eq!(first_outside, second_outside);

    let first_inside = sandbox.is_path_allowed(inside);
    let second_inside = sandbox.is_path_allowed(inside);
    assert_eq!(first_inside, second_inside);
    assert!(first_inside);
}

#[test]
fn missing_workspace_fails_construction() {
    assert!(Sandbox::new("/no/such/workspace/anywhere").is_none());
}

#[test]
fn containment_decision_on_canonical_outcomes() {
    let dir = tempfile::tempdir().unwrap();
    let workspace = dir.path().to_str().unwrap();
    let sandbox = Sandbox::new(workspace).unwrap();
    let root = canonical(dir.path());

    // The decision on an already-canonical outcome is pure: the paths need
    // not exist.
    assert!(sandbox.allows_canonical(&Some(root.clone())));
    assert!(sandbox.allows_canonical(&Some(format!("{}/a.txt", root))));
    assert!(sandbox.allows_canonical(&Some(format!("{}/a/b/c", root))));
    assert!(!sandbox.allows_canonical(&Some(format!("{}sibling", root))));
    assert!(!sandbox.allows_canonical(&Some("/etc/passwd".to_owned())));
    assert!(!sandbox.allows_canonical(&None));

    assert!(sandbox.gate_canonical("p", &Some(format!("{}/a", root))).is_ok());
    let denied = sandbox.gate_canonical("p", &None).unwrap_err();
    assert_eq!(denied, "DENIED: 'p' is outside Agent_Workspace");
}
