use runner::engine::{group_target, Action, Event, Execution, Phase};
use runner::naming::{push_decimal, timeout_message, workspace_path};
use runner::paths::{is_valid_file_name, join_path, sanitize_and_join};
use runner::types::{response_of, OkRunResponse, RunRequest};

fn request(command: &str, timeout: u64, files: &[(&str, &str)]) -> RunRequest {
    RunRequest {
        files: files.iter().map(|(k, v)| (k.to_string(), v.to_string())).collect(),
        command: command.to_string(),
        timeout_seconds: timeout,
    }
}

fn path_of(a: &Action) -> String {
    match a {
        Action::CreateDir { path } | Action::RemoveDir { path } => path.clone(),
        _ => panic!("no path"),
    }
}

#[test]
fn names_with_parent_components_are_refused() {
    for name in ["..", "../evil", "a/..", "a/../b", "/etc/passwd", "/", "a//../b"] {
        assert!(!is_valid_file_name(name), "{name}");
        let err = sanitize_and_join("/w", name).unwrap_err();
        assert_eq!(err, "invalid file name: must be a relative path without '..'");
    }
}

#[test]
fn ordinary_names_are_joined() {
    for name in ["a", "a/b", "..a", "a..", "a/.../b", "./a", "a/./b", ""] {
        assert!(is_valid_file_name(name), "{name}");
    }
    assert_eq!(sanitize_and_join("/w", "a/b").unwrap(), "/w/a/b");
    assert_eq!(sanitize_and_join("/w/", "a").unwrap(), "/w/a");
    assert_eq!(join_path("", "a"), "a");
}

#[test]
fn decimal_rendering() {
    let mut s = String::from("n=");
    push_decimal(&mut s, 0);
    push_decimal(&mut s, 1907);
    assert_eq!(s, "n=01907");
    let mut big = String::new();
    push_decimal(&mut big, u128::MAX);
    assert_eq!(big, u128::MAX.to_string());
}

#[test]
fn workspace_names() {
    assert_eq!(workspace_path("/tmp", 42, 123, 0), "/tmp/runner-42-123");
    assert_eq!(workspace_path("/tmp/", 42, 123, 3), "/tmp/runner-42-123-3");
}

#[test]
fn timeout_text() {
    assert_eq!(timeout_message(1, "oops"), "timed out after 1 seconds\noops");
    assert_eq!(timeout_message(30, ""), "timed out after 30 seconds\n");
}

#[test]
fn group_targets() {
    assert_eq!(group_target(Some(1234)), Some(-1234));
    assert_eq!(group_target(Some(i32::MAX as u32)), Some(-i32::MAX));
    assert_eq!(group_target(Some(u32::MAX)), None);
    assert_eq!(group_target(Some(0)), None);
    assert_eq!(group_target(None), None);
}

#[test]
fn response_shapes() {
    let ok = response_of(Ok(OkRunResponse { stdout: "o".to_string(), stderr: "e".to_string() }));
    assert_eq!((ok.stdout.as_str(), ok.stderr.as_str(), ok.error.as_str()), ("o", "e", ""));
    let err = response_of(Err("boom".to_string()));
    assert_eq!((err.stdout.as_str(), err.stderr.as_str(), err.error.as_str()), ("", "", "boom"));
}

#[test]
fn name_collisions_are_retried_then_given_up() {
    let (mut exec, first) = Execution::new(request("true", 0, &[]), "/t".to_string(), 5, 9);
    assert_eq!(path_of(&first), "/t/runner-5-9");
    for k in 1..=10u32 {
        let a = exec.step(Event::DirExists { message: "exists".to_string() });
        assert_eq!(path_of(&a), format!("/t/runner-5-9-{k}"));
    }
    match exec.step(Event::DirExists { message: "File exists".to_string() }) {
        Action::Finish { response } => assert_eq!(response.error, "File exists"),
        _ => panic!("expected the response"),
    }
    assert_eq!(exec.phase(), Phase::Done);
}

#[test]
fn workspace_removed_after_every_failure() {
    let failures = [
        Event::FileFailed { message: "disk full".to_string() },
    ];
    for failure in failures {
        let (mut exec, _) = Execution::new(request("true", 0, &[("f", "x")]), "/t".to_string(), 1, 2);
        exec.step(Event::DirCreated);
        let a = exec.step(failure);
        assert_eq!(path_of(&a), "/t/runner-1-2");
        match exec.step(Event::DirRemoved) {
            Action::Finish { response } => assert_eq!(response.error, "disk full"),
            _ => panic!("expected the response"),
        }
    }
    let (mut exec, _) = Execution::new(request("true", 0, &[]), "/t".to_string(), 1, 2);
    assert!(matches!(exec.step(Event::DirCreated), Action::Spawn { .. }));
    let a = exec.step(Event::SpawnFailed { message: "no shell".to_string() });
    assert_eq!(path_of(&a), "/t/runner-1-2");
    assert_eq!(exec.phase(), Phase::CleaningUp);
    match exec.step(Event::DirRemoved) {
        Action::Finish { response } => {
            assert_eq!(response.error, "no shell");
            assert_eq!(response.stdout, "");
        }
        _ => panic!("expected the response"),
    }
}

#[test]
fn invalid_name_stops_before_later_files() {
    let req = request("true", 0, &[("ok.txt", "1"), ("/abs", "2"), ("z", "3")]);
    let (mut exec, _) = Execution::new(req, "/t".to_string(), 1, 2);
    assert!(matches!(exec.step(Event::DirCreated), Action::WriteFile { .. }));
    let a = exec.step(Event::FileWritten);
    assert_eq!(path_of(&a), "/t/runner-1-2");
    match exec.step(Event::DirRemoved) {
        Action::Finish { response } => assert!(response.error.contains("invalid file name")),
        _ => panic!("expected the response"),
    }
}

#[test]
fn waiting_without_timeout_has_no_deadline() {
    let (mut exec, _) = Execution::new(request("true", 0, &[]), "/t".to_string(), 1, 2);
    exec.step(Event::DirCreated);
    assert!(matches!(exec.step(Event::Spawned { pid: None }), Action::Wait { timeout_seconds: 0 }));
    assert!(!exec.accepts(&Event::DeadlineElapsed));
    assert!(exec.accepts(&Event::Exited { stdout: Vec::new(), stderr: Vec::new() }));
}

#[test]
fn timeout_reports_stderr_and_unknown_pid_kills_child_only() {
    let (mut exec, _) = Execution::new(request("sleep 9", 2, &[]), "/t".to_string(), 1, 2);
    exec.step(Event::DirCreated);
    exec.step(Event::Spawned { pid: None });
    assert!(matches!(exec.step(Event::DeadlineElapsed), Action::KillGroup { group: None }));
    exec.step(Event::Killed { stderr: b"partial".to_vec() });
    match exec.step(Event::DirRemoved) {
        Action::Finish { response } => {
            assert_eq!(response.error, "timed out after 2 seconds\npartial");
            assert_eq!(response.stderr, "");
        }
        _ => panic!("expected the response"),
    }
}

#[test]
fn output_is_decoded_lossily() {
    let (mut exec, _) = Execution::new(request("x", 0, &[]), "/t".to_string(), 1, 2);
    exec.step(Event::DirCreated);
    exec.step(Event::Spawned { pid: Some(3) });
    exec.step(Event::Exited { stdout: vec![b'a', 0xff, b'b'], stderr: "é".as_bytes().to_vec() });
    match exec.step(Event::DirRemoved) {
        Action::Finish { response } => {
            assert_eq!(response.stdout, "a\u{FFFD}b");
            assert_eq!(response.stderr, "é");
        }
        _ => panic!("expected the response"),
    }
}

#[test]
fn repeated_requests_are_independent() {
    let mut seen = Vec::new();
    for n in 0..5u128 {
        let content = format!("content-{n}");
        let req = request("cat f", 0, &[("f", content.as_str())]);
        let (mut exec, first) = Execution::new(req, "/t".to_string(), 8, 1_000 + n);
        let dir = path_of(&first);
        assert!(!seen.contains(&dir));
        seen.push(dir.clone());
        match exec.step(Event::DirCreated) {
            Action::WriteFile { path, content: c } => {
                assert_eq!(path, format!("{dir}/f"));
                assert_eq!(c, content);
            }
            _ => panic!("expected a write"),
        }
        exec.step(Event::FileWritten);
        exec.step(Event::Spawned { pid: Some(10) });
        assert_eq!(path_of(&exec.step(Event::Exited { stdout: content.clone().into_bytes(), stderr: Vec::new() })), dir);
        match exec.step(Event::DirRemoved) {
            Action::Finish { response } => assert_eq!(response.stdout, content),
            _ => panic!("expected the response"),
        }
    }
}
