//! Running an action. The engine decides, the host acts: the host performs
//! each request (starting a program, talking to the window manager) and
//! reports what came of it, and the engine says what to do next.

use crate::text::contains;
use crate::text::decode;
use crate::text::decoded;
use crate::text::has_substring;
use crate::types::GoToOrLaunch;
use crate::types::Launch;
use crate::types::Leaf;
use vstd::prelude::*;

verus! {

/// What becomes of the session once an action has run.
#[derive(Clone, Copy, Debug, PartialEq, Eq)]
pub enum SessionOutcome {
    /// The session goes on and takes more keystrokes.
    Continue,
    /// The session ends.
    Terminate,
}

/// Why an action could not be carried out. Either ends the action, not the
/// session.
#[derive(Clone, Copy, Debug, PartialEq, Eq)]
pub enum RunError {
    /// The program could not be started.
    SpawnFailure,
    /// The window manager could not be asked to switch, or its answer to the
    /// query was missing or was not text.
    WindowManagerQueryFailure,
}

/// Something the host is asked to do.
#[derive(Clone, Copy, Debug, PartialEq, Eq)]
pub enum Request {
    /// Tell the window manager to focus the workspace, without waiting.
    SwitchWorkspace { workspace_name: &'static str },
    /// Ask the window manager for the dump of the workspace's windows.
    QueryWorkspace { workspace_name: &'static str },
    /// Start the program with its arguments, without waiting for it.
    Spawn { program: &'static str, args: &'static [&'static str] },
}

/// What the host reports of the request it performed.
#[derive(Clone, Debug, PartialEq, Eq)]
pub enum Reply {
    /// The command or program was started.
    Started,
    /// It could not be started, or the query failed.
    Failed,
    /// The bytes that the query printed.
    Output(Vec<u8>),
}

/// Where a running action stands: which request is under way.
#[derive(Clone, Copy, Debug, PartialEq, Eq)]
pub enum Stage {
    /// The switch to the workspace was requested.
    Switching(GoToOrLaunch),
    /// The dump of the workspace was requested.
    Querying(GoToOrLaunch),
    /// A program is being started; the outcome is that of its success.
    Spawning(SessionOutcome),
}

/// The next thing to happen in a running action.
#[derive(Clone, Copy, Debug, PartialEq, Eq)]
pub enum Step {
    /// The host performs `request` and reports back to `stage`.
    Perform { request: Request, stage: Stage },
    /// The action is over.
    Finished(Result<SessionOutcome, RunError>),
}

/// The request that starts the program of `launch`.
pub open spec fn spawn_of(launch: Launch) -> Request {
    Request::Spawn { program: launch.program, args: launch.args }
}

/// How an action begins.
pub open spec fn first_step(leaf: Leaf) -> Step {
    match leaf {
        Leaf::GoToOrLaunch(go) => Step::Perform {
            request: Request::SwitchWorkspace { workspace_name: go.workspace_name },
            stage: Stage::Switching(go),
        },
        Leaf::Launch(launch) => Step::Perform {
            request: spawn_of(launch),
            stage: Stage::Spawning(SessionOutcome::Terminate),
        },
        Leaf::LaunchNoQuit(launch) => Step::Perform {
            request: spawn_of(launch),
            stage: Stage::Spawning(SessionOutcome::Continue),
        },
        Leaf::Quit => Step::Finished(Ok(SessionOutcome::Terminate)),
    }
}

/// Whether the dump `bytes` is text that shows an instance matching `probe`;
/// nothing where the bytes are not text.
pub open spec fn shows_instance(bytes: Seq<u8>, probe: Seq<char>) -> Option<bool> {
    match decoded(bytes) {
        Some(text) => Some(has_substring(text, probe)),
        None => None,
    }
}

/// How an action goes on from `stage` once the host has reported `reply`.
///
/// A request that is not waited for has succeeded unless the host reports
/// `Failed`. The query has succeeded only if the host hands back its output,
/// and the output is text.
pub open spec fn next_step(stage: Stage, reply: Reply) -> Step {
    match stage {
        Stage::Switching(go) => match reply {
            Reply::Failed => Step::Finished(Err(RunError::WindowManagerQueryFailure)),
            _ => Step::Perform {
                request: Request::QueryWorkspace { workspace_name: go.workspace_name },
                stage: Stage::Querying(go),
            },
        },
        Stage::Querying(go) => match reply {
            Reply::Output(bytes) => match shows_instance(bytes@, go.instance_match@) {
                Some(true) => Step::Finished(Ok(SessionOutcome::Terminate)),
                Some(false) => Step::Perform {
                    request: spawn_of(go.launch),
                    stage: Stage::Spawning(SessionOutcome::Terminate),
                },
                None => Step::Finished(Err(RunError::WindowManagerQueryFailure)),
            },
            _ => Step::Finished(Err(RunError::WindowManagerQueryFailure)),
        },
        Stage::Spawning(outcome) => match reply {
            Reply::Failed => Step::Finished(Err(RunError::SpawnFailure)),
            _ => Step::Finished(Ok(outcome)),
        },
    }
}

/// What becomes of the session after a run that ended with `result`: a
/// failure ends the action but not the session.
pub open spec fn session_after(result: Result<SessionOutcome, RunError>) -> SessionOutcome {
    match result {
        Ok(outcome) => outcome,
        Err(_) => SessionOutcome::Continue,
    }
}

/// Whether the workspace dump `bytes` shows an instance matching `probe`.
pub fn instance_present(bytes: &[u8], probe: &str) -> (r: Option<bool>)
    ensures
        r == shows_instance(bytes@, probe@),
{
    match decode(bytes) {
        Some(text) => Some(contains(text, probe)),
        None => None,
    }
}

impl Leaf {
    /// Begins the action: the first request for the host, or the outcome
    /// where nothing has to be done.
    pub fn run(&self) -> (step: Step)
        ensures
            step == first_step(*self),
    {
        match self {
            Leaf::GoToOrLaunch(go) => Step::Perform {
                request: Request::SwitchWorkspace { workspace_name: go.workspace_name },
                stage: Stage::Switching(*go),
            },
            Leaf::Launch(launch) => Step::Perform {
                request: Request::Spawn { program: launch.program, args: launch.args },
                stage: Stage::Spawning(SessionOutcome::Terminate),
            },
            Leaf::LaunchNoQuit(launch) => Step::Perform {
                request: Request::Spawn { program: launch.program, args: launch.args },
                stage: Stage::Spawning(SessionOutcome::Continue),
            },
            Leaf::Quit => Step::Finished(Ok(SessionOutcome::Terminate)),
        }
    }
}

impl Stage {
    /// Goes on with the action after the host has reported `reply` of the
    /// request that this stage was waiting for.
    pub fn resume(self, reply: &Reply) -> (step: Step)
        ensures
            step == next_step(self, *reply),
    {
        match self {
            Stage::Switching(go) => match reply {
                Reply::Failed => Step::Finished(Err(RunError::WindowManagerQueryFailure)),
                _ => Step::Perform {
                    request: Request::QueryWorkspace { workspace_name: go.workspace_name },
                    stage: Stage::Querying(go),
                },
            },
            Stage::Querying(go) => match reply {
                Reply::Output(bytes) => match instance_present(
                    bytes.as_slice(),
                    go.instance_match,
                ) {
                    Some(true) => Step::Finished(Ok(SessionOutcome::Terminate)),
                    Some(false) => Step::Perform {
                        request: Request::Spawn {
                            program: go.launch.program,
                            args: go.launch.args,
                        },
                        stage: Stage::Spawning(SessionOutcome::Terminate),
                    },
                    None => Step::Finished(Err(RunError::WindowManagerQueryFailure)),
                },
                _ => Step::Finished(Err(RunError::WindowManagerQueryFailure)),
            },
            Stage::Spawning(outcome) => match reply {
                Reply::Failed => Step::Finished(Err(RunError::SpawnFailure)),
                _ => Step::Finished(Ok(outcome)),
            },
        }
    }
}

/// Decides whether the session goes on after a run that ended with
/// `result`: it ends only where the action succeeded and asks for it.
pub fn outcome_for_session(result: Result<SessionOutcome, RunError>) -> (outcome: SessionOutcome)
    ensures
        outcome == session_after(result),
{
    match result {
        Ok(outcome) => outcome,
        Err(_) => SessionOutcome::Continue,
    }
}

/// What a run does when the host answers its requests with `replies`, in
/// order: the requests made, and the outcome if the run got that far.
pub open spec fn play(step: Step, replies: Seq<Reply>) -> (Seq<Request>, Option<
    Result<SessionOutcome, RunError>,
>)
    decreases replies.len(),
{
    match step {
        Step::Finished(outcome) => (Seq::empty(), Some(outcome)),
        Step::Perform { request, stage } => if replies.len() == 0 {
            (seq![request], None)
        } else {
            let rest = play(next_step(stage, replies.first()), replies.drop_first());
            (seq![request] + rest.0, rest.1)
        },
    }
}

/// Quitting asks nothing of the host and ends the session.
pub proof fn lemma_quit_spawns_nothing(replies: Seq<Reply>)
    ensures
        play(first_step(Leaf::Quit), replies) == (
            Seq::<Request>::empty(),
            Some(Ok::<SessionOutcome, RunError>(SessionOutcome::Terminate)),
        ),
{
}

/// Where the workspace already shows an instance, the run switches to the
/// workspace, asks for its dump, and ends the session without starting
/// anything.
pub proof fn lemma_present_instance_is_not_spawned(go: GoToOrLaunch, dump: Vec<u8>)
    requires
        shows_instance(dump@, go.instance_match@) == Some(true),
    ensures
        play(first_step(Leaf::GoToOrLaunch(go)), seq![Reply::Started, Reply::Output(dump)]) == (
            seq![
                Request::SwitchWorkspace { workspace_name: go.workspace_name },
                Request::QueryWorkspace { workspace_name: go.workspace_name },
            ],
            Some(Ok::<SessionOutcome, RunError>(SessionOutcome::Terminate)),
        ),
{
    reveal_with_fuel(play, 4);
    let replies = seq![Reply::Started, Reply::Output(dump)];
    assert(replies.drop_first() =~= seq![Reply::Output(dump)]);
    assert(replies.drop_first().drop_first() =~= Seq::<Reply>::empty());
    let got = play(first_step(Leaf::GoToOrLaunch(go)), replies);
    assert(got.0 =~= seq![
        Request::SwitchWorkspace { workspace_name: go.workspace_name },
        Request::QueryWorkspace { workspace_name: go.workspace_name },
    ]);
}

/// Where the workspace shows no instance, the run switches to the workspace,
/// asks for its dump, then starts the program, in that order, and ends the
/// session.
pub proof fn lemma_absent_instance_is_spawned(go: GoToOrLaunch, dump: Vec<u8>)
    requires
        shows_instance(dump@, go.instance_match@) == Some(false),
    ensures
        play(
            first_step(Leaf::GoToOrLaunch(go)),
            seq![Reply::Started, Reply::Output(dump), Reply::Started],
        ) == (
            seq![
                Request::SwitchWorkspace { workspace_name: go.workspace_name },
                Request::QueryWorkspace { workspace_name: go.workspace_name },
                spawn_of(go.launch),
            ],
            Some(Ok::<SessionOutcome, RunError>(SessionOutcome::Terminate)),
        ),
{
    reveal_with_fuel(play, 5);
    let replies = seq![Reply::Started, Reply::Output(dump), Reply::Started];
    assert(replies.drop_first() =~= seq![Reply::Output(dump), Reply::Started]);
    assert(replies.drop_first().drop_first() =~= seq![Reply::Started]);
    assert(replies.drop_first().drop_first().drop_first() =~= Seq::<Reply>::empty());
    let got = play(first_step(Leaf::GoToOrLaunch(go)), replies);
    assert(got.0 =~= seq![
        Request::SwitchWorkspace { workspace_name: go.workspace_name },
        Request::QueryWorkspace { workspace_name: go.workspace_name },
        spawn_of(go.launch),
    ]);
}

/// Every run is over after three replies at most.
pub proof fn lemma_run_finishes(leaf: Leaf, replies: Seq<Reply>)
    requires
        replies.len() >= 3,
    ensures
        play(first_step(leaf), replies).1 is Some,
{
    reveal_with_fuel(play, 5);
}

/// Only an action that is meant to keep the session leaves it running: a run
/// that ends well ends the session, unless the action is `LaunchNoQuit`.
pub proof fn lemma_only_launch_no_quit_continues(leaf: Leaf, replies: Seq<Reply>)
    requires
        play(first_step(leaf), replies).1 == Some(
            Ok::<SessionOutcome, RunError>(SessionOutcome::Continue),
        ),
    ensures
        leaf is LaunchNoQuit,
{
    reveal_with_fuel(play, 5);
}

} // verus!
