use runner::engine::{Action, Event, Execution};
use runner::types::{RunRequest, RunResponse};

fn mk_req(command: &str, timeout: u64, files: &[(&str, &str)]) -> RunRequest {
    let mut list = Vec::new();
    for (k, v) in files.iter() {
        list.push(((*k).to_string(), (*v).to_string()));
    }
    RunRequest { files: list, command: command.to_string(), timeout_seconds: timeout }
}

/// Drives an execution, answering each action with `answer`, and returns
/// every action issued, the last being the `Finish`.
fn drive(req: RunRequest, mut answer: impl FnMut(&Action) -> Event) -> Vec<Action> {
    let (mut exec, mut action) = Execution::new(req, "/tmp".to_string(), 77, 1_000);
    let mut actions = Vec::new();
    loop {
        if let Action::Finish { .. } = action {
            actions.push(action);
            return actions;
        }
        let event = answer(&action);
        assert!(exec.accepts(&event));
        actions.push(action);
        action = exec.step(event);
    }
}

fn response(actions: &[Action]) -> RunResponse {
    match actions.last() {
        Some(Action::Finish { response }) => response.clone(),
        _ => panic!("no response"),
    }
}

/// Answers as a machine where every operation succeeds and the command
/// exits with the given output.
fn healthy(stdout: &'static [u8], stderr: &'static [u8]) -> impl FnMut(&Action) -> Event {
    move |a: &Action| match a {
        Action::CreateDir { .. } => Event::DirCreated,
        Action::WriteFile { .. } => Event::FileWritten,
        Action::Spawn { .. } => Event::Spawned { pid: Some(4321) },
        Action::Wait { .. } => Event::Exited { stdout: stdout.to_vec(), stderr: stderr.to_vec() },
        Action::KillGroup { .. } => Event::Killed { stderr: Vec::new() },
        Action::RemoveDir { .. } => Event::DirRemoved,
        Action::Finish { .. } => unreachable!(),
    }
}

#[test]
fn echo_stdout_and_stderr() {
    let req = mk_req("echo -n hello; echo -n world 1>&2", 5, &[]);
    let actions = drive(req, healthy(b"hello", b"world"));
    let res = response(&actions);
    assert_eq!(res.stdout, "hello");
    assert_eq!(res.stderr, "world");
    assert_eq!(res.error, "");
}

#[test]
fn writes_and_reads_files() {
    let req = mk_req("cat input.txt > out.txt; echo -n done", 5, &[("input.txt", "data")]);
    let actions = drive(req, healthy(b"done", b""));
    assert!(actions.iter().any(|a| matches!(a, Action::WriteFile { path, content }
        if path == "/tmp/runner-77-1000/input.txt" && content == "data")));
    let res = response(&actions);
    assert_eq!(res.stdout, "done");
    assert!(res.stderr.is_empty());
}

#[test]
fn rejects_invalid_paths() {
    let req = mk_req("true", 5, &[("../evil", "x")]);
    let actions = drive(req, healthy(b"", b""));
    assert!(!actions.iter().any(|a| matches!(a, Action::Spawn { .. })));
    let err = response(&actions).error;
    assert!(err.contains("invalid file name"));
}

#[test]
fn times_out_and_kills_process_group() {
    let script = r#"
        set -e
        bash -lc 'sleep 1000' &
        # Parent waits forever as well
        sleep 1000
    "#;
    let req = mk_req(script, 1, &[]);
    let actions = drive(req, |a: &Action| match a {
        Action::CreateDir { .. } => Event::DirCreated,
        Action::Spawn { .. } => Event::Spawned { pid: Some(4321) },
        Action::Wait { .. } => Event::DeadlineElapsed,
        Action::KillGroup { .. } => Event::Killed { stderr: Vec::new() },
        Action::RemoveDir { .. } => Event::DirRemoved,
        _ => unreachable!(),
    });
    assert!(actions.iter().any(|a| matches!(a, Action::KillGroup { group: Some(-4321) })));
    let err = response(&actions).error;
    assert!(err.contains("timed out after"));
}
