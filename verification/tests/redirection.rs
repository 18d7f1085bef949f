//! Stream-redirection resolution on its own.

use launcher::{child_stdio, resolve_redirection, ChildStdio, StreamTargets};

#[test]
fn debug_override_wins_even_with_files_configured() {
    let t = resolve_redirection(true, &Some("o.log".to_string()), &Some("e.log".to_string()));
    assert!(matches!(t, StreamTargets::Untouched));
}

#[test]
fn no_stdout_file_means_no_redirection() {
    let t = resolve_redirection(false, &None, &None);
    assert!(matches!(t, StreamTargets::Untouched));
    // A standard-error file alone does not trigger redirection.
    let t = resolve_redirection(false, &None, &Some("e.log".to_string()));
    assert!(matches!(t, StreamTargets::Untouched));
}

#[test]
fn missing_stderr_file_falls_back_to_the_stdout_file() {
    match resolve_redirection(false, &Some("o.log".to_string()), &None) {
        StreamTargets::Files { stdout_path, stderr_path } => {
            assert_eq!(stdout_path, "o.log");
            assert_eq!(stderr_path, "o.log");
        },
        StreamTargets::Untouched => panic!("a configured file must be applied"),
    }
}

#[test]
fn both_files_resolve_separately() {
    match resolve_redirection(false, &Some("o.log".to_string()), &Some("e.log".to_string())) {
        StreamTargets::Files { stdout_path, stderr_path } => {
            assert_eq!(stdout_path, "o.log");
            assert_eq!(stderr_path, "e.log");
        },
        StreamTargets::Untouched => panic!("configured files must be applied"),
    }
}

#[test]
fn reexec_child_streams_follow_debug_and_files() {
    assert_eq!(child_stdio(false, &None, &None), ChildStdio::Null);
    assert_eq!(child_stdio(true, &None, &None), ChildStdio::Inherit);
    assert_eq!(child_stdio(false, &Some("o".to_string()), &None), ChildStdio::Inherit);
    assert_eq!(child_stdio(false, &None, &Some("e".to_string())), ChildStdio::Inherit);
}
