//! The execution engine as a state machine.
//!
//! An execution moves through provisioning a workspace, writing the files,
//! spawning the command, waiting for it (or killing its process group at the
//! deadline) and removing the workspace. Each call of [`Execution::step`]
//! takes the event that the last action produced and returns the next action;
//! the caller performs the actions. Every path that created the workspace
//! goes through its removal before the response is handed out.

use vstd::prelude::*;
use crate::decode::{decode_lossy, lossy_text};
use crate::naming::{timeout_message, timeout_message_spec, workspace_candidate, workspace_path, MAX_NAME_RETRIES};
use crate::paths::{is_valid_name, join_spec, sanitize_and_join};
use crate::types::{response_fields, response_of, OkRunResponse, RunRequest, RunResponse};

verus! {

/// Where an execution stands.
#[derive(Clone, Copy, Debug, PartialEq, Eq, Structural)]
pub enum Phase {
    /// A candidate workspace directory is being created.
    Provisioning,
    /// A file of the request is being written.
    WritingFiles,
    /// The command is being spawned.
    Spawning,
    /// The command runs; its exit is awaited, against the deadline if any.
    Waiting,
    /// The deadline passed; the process group is being killed.
    Killing,
    /// The workspace is being removed.
    CleaningUp,
    /// The response has been handed out.
    Done,
}

/// What the caller reports back after performing an action.
#[derive(Clone, Debug)]
pub enum Event {
    /// The candidate directory was created.
    DirCreated,
    /// The candidate directory already existed.
    DirExists { message: String },
    /// Creating the candidate directory failed otherwise.
    DirFailed { message: String },
    /// The file was written (its parent directories created first).
    FileWritten,
    /// Writing the file failed.
    FileFailed { message: String },
    /// The command was spawned; `pid` is its process id, if still known.
    Spawned { pid: Option<u32> },
    /// The command could not be spawned.
    SpawnFailed { message: String },
    /// The command exited; these are all the bytes of both pipes.
    Exited { stdout: Vec<u8>, stderr: Vec<u8> },
    /// Waiting for the command failed.
    WaitFailed { message: String },
    /// The deadline passed before the command exited.
    DeadlineElapsed,
    /// The process group and the child were killed and reaped; this is what
    /// the command had written to stderr.
    Killed { stderr: Vec<u8> },
    /// Removal of the workspace was attempted (its failure is ignored).
    DirRemoved,
}

/// What the caller is asked to do next.
#[derive(Clone, Debug)]
pub enum Action {
    /// Create the directory `path`, failing if it exists.
    CreateDir { path: String },
    /// Create the parent directories of `path`, then write `content` to it.
    WriteFile { path: String, content: String },
    /// Run `command` through the shell in `dir`, in a new session, with both
    /// output streams piped.
    Spawn { command: String, dir: String },
    /// Wait for the command to exit, draining both pipes meanwhile; with a
    /// non-zero `timeout_seconds`, no longer than that.
    Wait { timeout_seconds: u64 },
    /// Kill the process group `group` (a negated process id) if there is one,
    /// then the child itself; reap it and collect the drained stderr.
    KillGroup { group: Option<i32> },
    /// Remove the directory `path` with all its contents.
    RemoveDir { path: String },
    /// Hand `response` to the caller; the execution is over.
    Finish { response: RunResponse },
}

/// The model of an event.
pub enum EventView {
    DirCreated,
    DirExists(Seq<char>),
    DirFailed(Seq<char>),
    FileWritten,
    FileFailed(Seq<char>),
    Spawned(Option<u32>),
    SpawnFailed(Seq<char>),
    Exited(Seq<u8>, Seq<u8>),
    WaitFailed(Seq<char>),
    DeadlineElapsed,
    Killed(Seq<u8>),
    DirRemoved,
}

/// The model of an action.
pub enum ActionView {
    CreateDir(Seq<char>),
    WriteFile(Seq<char>, Seq<char>),
    Spawn(Seq<char>, Seq<char>),
    Wait(u64),
    KillGroup(Option<i32>),
    RemoveDir(Seq<char>),
    /// The stdout, stderr and error fields of the response.
    Finish(Seq<char>, Seq<char>, Seq<char>),
}

impl View for Event {
    type V = EventView;

    open spec fn view(&self) -> EventView {
        match self {
            Event::DirCreated => EventView::DirCreated,
            Event::DirExists { message } => EventView::DirExists(message@),
            Event::DirFailed { message } => EventView::DirFailed(message@),
            Event::FileWritten => EventView::FileWritten,
            Event::FileFailed { message } => EventView::FileFailed(message@),
            Event::Spawned { pid } => EventView::Spawned(*pid),
            Event::SpawnFailed { message } => EventView::SpawnFailed(message@),
            Event::Exited { stdout, stderr } => EventView::Exited(stdout@, stderr@),
            Event::WaitFailed { message } => EventView::WaitFailed(message@),
            Event::DeadlineElapsed => EventView::DeadlineElapsed,
            Event::Killed { stderr } => EventView::Killed(stderr@),
            Event::DirRemoved => EventView::DirRemoved,
        }
    }
}

impl View for Action {
    type V = ActionView;

    open spec fn view(&self) -> ActionView {
        match self {
            Action::CreateDir { path } => ActionView::CreateDir(path@),
            Action::WriteFile { path, content } => ActionView::WriteFile(path@, content@),
            Action::Spawn { command, dir } => ActionView::Spawn(command@, dir@),
            Action::Wait { timeout_seconds } => ActionView::Wait(*timeout_seconds),
            Action::KillGroup { group } => ActionView::KillGroup(*group),
            Action::RemoveDir { path } => ActionView::RemoveDir(path@),
            Action::Finish { response } => ActionView::Finish(
                response.stdout@,
                response.stderr@,
                response.error@,
            ),
        }
    }
}

/// The model of an execution.
pub struct ExecView {
    /// The (name, content) pairs of the request.
    pub files: Seq<(Seq<char>, Seq<char>)>,
    pub command: Seq<char>,
    pub timeout_seconds: u64,
    /// The directory that workspaces are created in.
    pub base: Seq<char>,
    pub process_id: u32,
    /// The time of the request, in nanoseconds since the epoch.
    pub nanos: u128,
    pub phase: Phase,
    /// The counter of the current workspace candidate.
    pub attempt: nat,
    /// The workspace, once created.
    pub workspace: Seq<char>,
    /// The index of the file being written.
    pub next_file: nat,
    /// The process id of the command, once spawned.
    pub pid: Option<u32>,
    /// The result, once decided.
    pub outcome: Option<Result<(Seq<char>, Seq<char>), Seq<char>>>,
}

/// The process group to signal for the command `pid`: its negated id, where
/// the id is known and a positive `i32`.
pub open spec fn group_of(pid: Option<u32>) -> Option<i32> {
    match pid {
        Some(p) => if 0 < p <= i32::MAX {
            Some(-(p as int) as i32)
        } else {
            None
        },
        None => None,
    }
}

/// The process group to signal for the command `pid`.
pub fn group_target(pid: Option<u32>) -> (r: Option<i32>)
    ensures
        r == group_of(pid),
{
    match pid {
        Some(p) => if 0 < p && p <= i32::MAX as u32 {
            Some(-(p as i32))
        } else {
            None
        },
        None => None,
    }
}

/// The first state of an execution of `request`.
pub open spec fn initial(
    files: Seq<(Seq<char>, Seq<char>)>,
    command: Seq<char>,
    timeout_seconds: u64,
    base: Seq<char>,
    process_id: u32,
    nanos: u128,
) -> ExecView {
    ExecView {
        files,
        command,
        timeout_seconds,
        base,
        process_id,
        nanos,
        phase: Phase::Provisioning,
        attempt: 0,
        workspace: Seq::empty(),
        next_file: 0,
        pid: None,
        outcome: None,
    }
}

/// The first action of every execution: create the first candidate.
pub open spec fn first_action(s: ExecView) -> ActionView {
    ActionView::CreateDir(workspace_candidate(s.base, s.process_id as nat, s.nanos as nat, 0))
}

/// Stop with `message` as the error; the workspace is removed first.
pub open spec fn failing(s: ExecView, message: Seq<char>) -> (ExecView, ActionView) {
    (
        ExecView { phase: Phase::CleaningUp, outcome: Some(Err(message)), ..s },
        ActionView::RemoveDir(s.workspace),
    )
}

/// Continue with the file at index `i`: write it if its name is valid, else
/// fail; past the last file, spawn the command.
pub open spec fn files_from(s: ExecView, i: nat) -> (ExecView, ActionView) {
    if i < s.files.len() {
        if is_valid_name(s.files[i as int].0) {
            (
                ExecView { phase: Phase::WritingFiles, next_file: i, ..s },
                ActionView::WriteFile(join_spec(s.workspace, s.files[i as int].0), s.files[i as int].1),
            )
        } else {
            failing(ExecView { next_file: i, ..s }, crate::paths::invalid_name_message())
        }
    } else {
        (
            ExecView { phase: Phase::Spawning, next_file: i, ..s },
            ActionView::Spawn(s.command, s.workspace),
        )
    }
}

/// The events that can answer the action of a state.
pub open spec fn accepts(s: ExecView, e: EventView) -> bool {
    match s.phase {
        Phase::Provisioning => e is DirCreated || e is DirExists || e is DirFailed,
        Phase::WritingFiles => e is FileWritten || e is FileFailed,
        Phase::Spawning => e is Spawned || e is SpawnFailed,
        Phase::Waiting => e is Exited || e is WaitFailed || (e is DeadlineElapsed
            && s.timeout_seconds > 0),
        Phase::Killing => e is Killed,
        Phase::CleaningUp => e is DirRemoved,
        Phase::Done => false,
    }
}

/// The next state and action after event `e` in state `s`.
pub open spec fn next(s: ExecView, e: EventView) -> (ExecView, ActionView) {
    match (s.phase, e) {
        (Phase::Provisioning, EventView::DirCreated) => files_from(
            ExecView {
                workspace: workspace_candidate(s.base, s.process_id as nat, s.nanos as nat, s.attempt),
                ..s
            },
            0,
        ),
        (Phase::Provisioning, EventView::DirExists(m)) => if s.attempt < MAX_NAME_RETRIES {
            (
                ExecView { attempt: s.attempt + 1, ..s },
                ActionView::CreateDir(
                    workspace_candidate(s.base, s.process_id as nat, s.nanos as nat, s.attempt + 1),
                ),
            )
        } else {
            (
                ExecView { phase: Phase::Done, outcome: Some(Err(m)), ..s },
                ActionView::Finish(Seq::empty(), Seq::empty(), m),
            )
        },
        (Phase::Provisioning, EventView::DirFailed(m)) => (
            ExecView { phase: Phase::Done, outcome: Some(Err(m)), ..s },
            ActionView::Finish(Seq::empty(), Seq::empty(), m),
        ),
        (Phase::WritingFiles, EventView::FileWritten) => files_from(s, s.next_file + 1),
        (Phase::WritingFiles, EventView::FileFailed(m)) => failing(s, m),
        (Phase::Spawning, EventView::Spawned(pid)) => (
            ExecView { phase: Phase::Waiting, pid, ..s },
            ActionView::Wait(s.timeout_seconds),
        ),
        (Phase::Spawning, EventView::SpawnFailed(m)) => failing(s, m),
        (Phase::Waiting, EventView::Exited(out, err)) => (
            ExecView {
                phase: Phase::CleaningUp,
                outcome: Some(Ok((lossy_text(out), lossy_text(err)))),
                ..s
            },
            ActionView::RemoveDir(s.workspace),
        ),
        (Phase::Waiting, EventView::WaitFailed(m)) => failing(s, m),
        (Phase::Waiting, EventView::DeadlineElapsed) => (
            ExecView { phase: Phase::Killing, ..s },
            ActionView::KillGroup(group_of(s.pid)),
        ),
        (Phase::Killing, EventView::Killed(err)) => failing(
            s,
            timeout_message_spec(s.timeout_seconds as nat, lossy_text(err)),
        ),
        (Phase::CleaningUp, EventView::DirRemoved) => {
            let f = response_fields(s.outcome.unwrap());
            (ExecView { phase: Phase::Done, ..s }, ActionView::Finish(f.0, f.1, f.2))
        },
        _ => (s, ActionView::Finish(Seq::empty(), Seq::empty(), Seq::empty())),
    }
}

/// What holds in every state that an execution reaches.
pub open spec fn well_formed(s: ExecView) -> bool {
    &&& s.attempt <= MAX_NAME_RETRIES
    &&& s.next_file <= s.files.len()
    &&& (s.phase is WritingFiles ==> s.next_file < s.files.len())
    &&& s.phase is WritingFiles ==> (forall|i: int|
        0 <= i <= s.next_file ==> is_valid_name(#[trigger] s.files[i].0))
    &&& (s.phase is Spawning || s.phase is Waiting || s.phase is Killing) ==> (forall|i: int|
        0 <= i < s.files.len() ==> is_valid_name(#[trigger] s.files[i].0))
    &&& (s.phase is CleaningUp || s.phase is Done) ==> s.outcome is Some
}

/// One execution of a request.
pub struct Execution {
    request: RunRequest,
    base: String,
    process_id: u32,
    nanos: u128,
    phase: Phase,
    attempt: u32,
    workspace: String,
    next_file: usize,
    pid: Option<u32>,
    outcome: Option<Result<OkRunResponse, String>>,
}

impl View for Execution {
    type V = ExecView;

    closed spec fn view(&self) -> ExecView {
        ExecView {
            files: self.request.files.deep_view(),
            command: self.request.command@,
            timeout_seconds: self.request.timeout_seconds,
            base: self.base@,
            process_id: self.process_id,
            nanos: self.nanos,
            phase: self.phase,
            attempt: self.attempt as nat,
            workspace: self.workspace@,
            next_file: self.next_file as nat,
            pid: self.pid,
            outcome: match self.outcome {
                Some(o) => Some(crate::types::outcome_view(o)),
                None => None,
            },
        }
    }
}

impl Execution {
    /// Starts an execution of `request` in a workspace under `base`, named
    /// after `process_id` and the time `nanos`; returns it with its first
    /// action.
    pub fn new(request: RunRequest, base: String, process_id: u32, nanos: u128) -> (r: (
        Execution,
        Action,
    ))
        ensures
            r.0@ == initial(
                request.files.deep_view(),
                request.command@,
                request.timeout_seconds,
                base@,
                process_id,
                nanos,
            ),
            well_formed(r.0@),
            r.1@ == first_action(r.0@),
    {
        let path = workspace_path(base.as_str(), process_id, nanos, 0);
        let e = Execution {
            request,
            base,
            process_id,
            nanos,
            phase: Phase::Provisioning,
            attempt: 0,
            workspace: String::new(),
            next_file: 0,
            pid: None,
            outcome: None,
        };
        proof {
            assert(e@.workspace =~= Seq::<char>::empty());
        }
        (e, Action::CreateDir { path })
    }

    /// The phase the execution is in.
    pub fn phase(&self) -> (r: Phase)
        ensures
            r == self@.phase,
    {
        self.phase
    }

    /// Tells whether `e` can answer the current action.
    pub fn accepts(&self, e: &Event) -> (r: bool)
        ensures
            r == accepts(self@, e@),
    {
        match self.phase {
            Phase::Provisioning => matches!(e, Event::DirCreated | Event::DirExists { .. } | Event::DirFailed { .. }),
            Phase::WritingFiles => matches!(e, Event::FileWritten | Event::FileFailed { .. }),
            Phase::Spawning => matches!(e, Event::Spawned { .. } | Event::SpawnFailed { .. }),
            Phase::Waiting => match e {
                Event::Exited { .. } | Event::WaitFailed { .. } => true,
                Event::DeadlineElapsed => self.request.timeout_seconds > 0,
                _ => false,
            },
            Phase::Killing => matches!(e, Event::Killed { .. }),
            Phase::CleaningUp => matches!(e, Event::DirRemoved),
            Phase::Done => false,
        }
    }

    fn fail(&mut self, message: String) -> (a: Action)
        ensures
            (final(self)@, a@) == failing(old(self)@, message@),
    {
        self.phase = Phase::CleaningUp;
        self.outcome = Some(Err(message));
        Action::RemoveDir { path: self.workspace.clone() }
    }

    fn files_from(&mut self, i: usize) -> (a: Action)
        requires
            i <= old(self)@.files.len(),
            old(self)@.phase is Provisioning || old(self)@.phase is WritingFiles,
            forall|k: int| 0 <= k < i ==> is_valid_name(#[trigger] old(self)@.files[k].0),
        ensures
            (final(self)@, a@) == files_from(old(self)@, i as nat),
    {
        let ghost files = self.request.files.deep_view();
        self.next_file = i;
        if i < self.request.files.len() {
            assert(files[i as int].0 == self.request.files@[i as int].0@);
            match sanitize_and_join(self.workspace.as_str(), self.request.files[i].0.as_str()) {
                Ok(path) => {
                    self.phase = Phase::WritingFiles;
                    Action::WriteFile { path, content: self.request.files[i].1.clone() }
                },
                Err(m) => self.fail(m),
            }
        } else {
            self.phase = Phase::Spawning;
            Action::Spawn { command: self.request.command.clone(), dir: self.workspace.clone() }
        }
    }

    /// Takes the event that answered the last action and returns the next
    /// action.
    pub fn step(&mut self, e: Event) -> (a: Action)
        requires
            well_formed(old(self)@),
            accepts(old(self)@, e@),
        ensures
            (final(self)@, a@) == next(old(self)@, e@),
            well_formed(final(self)@),
    {
        match e {
            Event::DirCreated => {
                self.workspace = workspace_path(
                    self.base.as_str(),
                    self.process_id,
                    self.nanos,
                    self.attempt,
                );
                self.files_from(0)
            },
            Event::DirExists { message } => {
                if self.attempt < MAX_NAME_RETRIES {
                    self.attempt = self.attempt + 1;
                    Action::CreateDir {
                        path: workspace_path(
                            self.base.as_str(),
                            self.process_id,
                            self.nanos,
                            self.attempt,
                        ),
                    }
                } else {
                    self.finish_early(message)
                }
            },
            Event::DirFailed { message } => self.finish_early(message),
            Event::FileWritten => {
                let n = self.request.files.len();
                assert(self.request.files.deep_view().len() == n);
                self.files_from(self.next_file + 1)
            },
            Event::FileFailed { message } => self.fail(message),
            Event::Spawned { pid } => {
                self.phase = Phase::Waiting;
                self.pid = pid;
                Action::Wait { timeout_seconds: self.request.timeout_seconds }
            },
            Event::SpawnFailed { message } => self.fail(message),
            Event::Exited { stdout, stderr } => {
                let out = decode_lossy(&stdout);
                let err = decode_lossy(&stderr);
                self.phase = Phase::CleaningUp;
                self.outcome = Some(Ok(OkRunResponse { stdout: out, stderr: err }));
                Action::RemoveDir { path: self.workspace.clone() }
            },
            Event::WaitFailed { message } => self.fail(message),
            Event::DeadlineElapsed => {
                self.phase = Phase::Killing;
                Action::KillGroup { group: group_target(self.pid) }
            },
            Event::Killed { stderr } => {
                let err = decode_lossy(&stderr);
                let message = timeout_message(self.request.timeout_seconds, err.as_str());
                self.fail(message)
            },
            Event::DirRemoved => {
                self.phase = Phase::Done;
                let outcome = match &self.outcome {
                    Some(Ok(ok)) => Ok(
                        OkRunResponse { stdout: ok.stdout.clone(), stderr: ok.stderr.clone() },
                    ),
                    Some(Err(m)) => Err(m.clone()),
                    None => Err(String::new()),
                };
                let response = response_of(outcome);
                Action::Finish { response }
            },
        }
    }

    fn finish_early(&mut self, message: String) -> (a: Action)
        requires
            old(self)@.phase is Provisioning,
        ensures
            final(self)@ == (ExecView {
                phase: Phase::Done,
                outcome: Some(Err(message@)),
                ..old(self)@
            }),
            a@ == ActionView::Finish(Seq::empty(), Seq::empty(), message@),
    {
        self.phase = Phase::Done;
        self.outcome = Some(Err(message.clone()));
        Action::Finish {
            response: RunResponse { stdout: String::new(), stderr: String::new(), error: message },
        }
    }
}

} // verus!
