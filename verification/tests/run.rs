use single_mode_shortcuts::run::instance_present;
use single_mode_shortcuts::run::Reply;
use single_mode_shortcuts::run::Request;
use single_mode_shortcuts::run::RunError;
use single_mode_shortcuts::run::SessionOutcome;
use single_mode_shortcuts::run::Stage;
use single_mode_shortcuts::run::Step;
use single_mode_shortcuts::text::chars_of;
use single_mode_shortcuts::text::contains;
use single_mode_shortcuts::text::decode;
use single_mode_shortcuts::Filter;
use single_mode_shortcuts::GoToOrLaunch;
use single_mode_shortcuts::Launch;
use single_mode_shortcuts::Leaf;
use single_mode_shortcuts::TaskMessage;
use single_mode_shortcuts::TaskState;

const ANKI: GoToOrLaunch = GoToOrLaunch {
    workspace_name: "7",
    instance_match: "anki",
    launch: Launch { name: "anki", program: "anki-bin", args: &["--profile", "main"] },
};

/// Runs `leaf` against a host that answers with `replies` in order, and
/// returns the requests made and how the run ended.
fn play(leaf: Leaf, replies: Vec<Reply>) -> (Vec<Request>, Option<Result<SessionOutcome, RunError>>) {
    let mut requests = Vec::new();
    let mut step = leaf.run();
    let mut replies = replies.into_iter();
    loop {
        match step {
            Step::Finished(outcome) => return (requests, Some(outcome)),
            Step::Perform { request, stage } => {
                requests.push(request);
                match replies.next() {
                    Some(reply) => step = stage.resume(&reply),
                    None => return (requests, None),
                }
            }
        }
    }
}

#[test]
fn go_to_or_launch_with_instance_present_only_switches() {
    let dump = b"{\"class\": \"^anki$\", \"name\": \"Browse - anki\"}".to_vec();
    let (requests, outcome) =
        play(Leaf::GoToOrLaunch(ANKI), vec![Reply::Started, Reply::Output(dump), Reply::Started]);
    assert_eq!(
        requests,
        vec![
            Request::SwitchWorkspace { workspace_name: "7" },
            Request::QueryWorkspace { workspace_name: "7" },
        ]
    );
    assert_eq!(outcome, Some(Ok(SessionOutcome::Terminate)));
    assert!(!requests.iter().any(|r| matches!(r, Request::Spawn { .. })));
}

#[test]
fn go_to_or_launch_with_instance_absent_switches_then_spawns() {
    let dump = b"{\"class\": \"^firefox$\"}".to_vec();
    let (requests, outcome) =
        play(Leaf::GoToOrLaunch(ANKI), vec![Reply::Started, Reply::Output(dump), Reply::Started]);
    assert_eq!(
        requests,
        vec![
            Request::SwitchWorkspace { workspace_name: "7" },
            Request::QueryWorkspace { workspace_name: "7" },
            Request::Spawn { program: "anki-bin", args: &["--profile", "main"] },
        ]
    );
    assert_eq!(outcome, Some(Ok(SessionOutcome::Terminate)));
}

#[test]
fn go_to_or_launch_with_empty_dump_spawns() {
    let (requests, outcome) = play(
        Leaf::GoToOrLaunch(ANKI),
        vec![Reply::Started, Reply::Output(Vec::new()), Reply::Started],
    );
    assert_eq!(requests.len(), 3);
    assert_eq!(outcome, Some(Ok(SessionOutcome::Terminate)));
}

#[test]
fn go_to_or_launch_fails_when_the_switch_cannot_be_requested() {
    let (requests, outcome) = play(Leaf::GoToOrLaunch(ANKI), vec![Reply::Failed]);
    assert_eq!(requests, vec![Request::SwitchWorkspace { workspace_name: "7" }]);
    assert_eq!(outcome, Some(Err(RunError::WindowManagerQueryFailure)));
}

#[test]
fn go_to_or_launch_fails_when_the_query_fails() {
    let (requests, outcome) = play(Leaf::GoToOrLaunch(ANKI), vec![Reply::Started, Reply::Failed]);
    assert_eq!(requests.len(), 2);
    assert_eq!(outcome, Some(Err(RunError::WindowManagerQueryFailure)));
    let (_, outcome) = play(Leaf::GoToOrLaunch(ANKI), vec![Reply::Started, Reply::Started]);
    assert_eq!(outcome, Some(Err(RunError::WindowManagerQueryFailure)));
}

#[test]
fn go_to_or_launch_fails_when_the_dump_is_not_text() {
    let dump = vec![b'a', b'n', b'k', b'i', 0xff, 0xfe];
    let (requests, outcome) =
        play(Leaf::GoToOrLaunch(ANKI), vec![Reply::Started, Reply::Output(dump)]);
    assert_eq!(requests.len(), 2);
    assert_eq!(outcome, Some(Err(RunError::WindowManagerQueryFailure)));
}

#[test]
fn go_to_or_launch_fails_when_the_program_cannot_be_started() {
    let (requests, outcome) = play(
        Leaf::GoToOrLaunch(ANKI),
        vec![Reply::Started, Reply::Output(b"nothing".to_vec()), Reply::Failed],
    );
    assert_eq!(requests.len(), 3);
    assert_eq!(outcome, Some(Err(RunError::SpawnFailure)));
}

#[test]
fn launch_spawns_and_terminates() {
    let chrome = Launch { name: "chrome", program: "google-chrome-stable", args: &[] };
    let (requests, outcome) = play(Leaf::Launch(chrome), vec![Reply::Started]);
    assert_eq!(requests, vec![Request::Spawn { program: "google-chrome-stable", args: &[] }]);
    assert_eq!(outcome, Some(Ok(SessionOutcome::Terminate)));
}

#[test]
fn launch_reports_a_spawn_failure() {
    let missing = Launch { name: "missing", program: "/no/such/program", args: &[] };
    let (_, outcome) = play(Leaf::Launch(missing), vec![Reply::Failed]);
    assert_eq!(outcome, Some(Err(RunError::SpawnFailure)));
    let (_, outcome) = play(Leaf::LaunchNoQuit(missing), vec![Reply::Failed]);
    assert_eq!(outcome, Some(Err(RunError::SpawnFailure)));
}

#[test]
fn launch_no_quit_spawns_and_continues() {
    let increase = Launch { name: "increase", program: "xbacklight", args: &["-inc", "1"] };
    let (requests, outcome) = play(Leaf::LaunchNoQuit(increase), vec![Reply::Started]);
    assert_eq!(requests, vec![Request::Spawn { program: "xbacklight", args: &["-inc", "1"] }]);
    assert_eq!(outcome, Some(Ok(SessionOutcome::Continue)));
}

#[test]
fn quit_asks_nothing_of_the_host() {
    let (requests, outcome) = play(Leaf::Quit, vec![Reply::Started]);
    assert!(requests.is_empty());
    assert_eq!(outcome, Some(Ok(SessionOutcome::Terminate)));
}

#[test]
fn a_run_waits_for_the_reply() {
    let (requests, outcome) = play(Leaf::GoToOrLaunch(ANKI), vec![]);
    assert_eq!(requests.len(), 1);
    assert_eq!(outcome, None);
}

#[test]
fn stages_resume_on_their_own() {
    assert_eq!(
        Stage::Switching(ANKI).resume(&Reply::Output(vec![1, 2])),
        Step::Perform {
            request: Request::QueryWorkspace { workspace_name: "7" },
            stage: Stage::Querying(ANKI),
        }
    );
    assert_eq!(
        Stage::Spawning(SessionOutcome::Continue).resume(&Reply::Output(Vec::new())),
        Step::Finished(Ok(SessionOutcome::Continue))
    );
    assert_eq!(
        Stage::Querying(ANKI).resume(&Reply::Output(b"xx anki xx".to_vec())),
        Step::Finished(Ok(SessionOutcome::Terminate))
    );
}

#[test]
fn instance_present_reads_the_dump_as_text() {
    assert_eq!(instance_present(b"a window of anki", "anki"), Some(true));
    assert_eq!(instance_present(b"a window of ank", "anki"), Some(false));
    assert_eq!(instance_present(b"", "anki"), Some(false));
    assert_eq!(instance_present(b"", ""), Some(true));
    assert_eq!(instance_present(&[0xc3, 0xa9, b'!'], "\u{e9}!"), Some(true));
    assert_eq!(instance_present(&[0xc3], "x"), None);
    assert_eq!(instance_present(&[0x80, b'x'], "x"), None);
}

#[test]
fn decode_accepts_only_well_formed_text() {
    assert_eq!(decode(b"plain"), Some("plain"));
    assert_eq!(decode(&[0xe2, 0x82, 0xac]), Some("\u{20ac}"));
    assert_eq!(decode(&[]), Some(""));
    assert_eq!(decode(&[0xe2, 0x82]), None);
    assert_eq!(decode(&[0xff]), None);
}

#[test]
fn contains_finds_substrings() {
    assert!(contains("^anki$ and more", "^anki$"));
    assert!(contains("abc", "abc"));
    assert!(contains("abc", "bc"));
    assert!(contains("abc", "a"));
    assert!(contains("abc", ""));
    assert!(contains("", ""));
    assert!(!contains("", "a"));
    assert!(!contains("abc", "abcd"));
    assert!(!contains("abc", "ac"));
    assert!(!contains("aab", "abb"));
    assert!(contains("aaab", "aab"));
    assert!(contains("na\u{ef}ve caf\u{e9}", "\u{ef}ve"));
    assert!(!contains("naive", "\u{ef}"));
}

#[test]
fn chars_of_lists_the_characters() {
    assert_eq!(chars_of("a\u{e9} z"), vec!['a', '\u{e9}', ' ', 'z']);
    assert!(chars_of("").is_empty());
}

#[test]
fn task_vocabulary_defaults() {
    assert_eq!(TaskState::default(), TaskState::Idle);
    assert_eq!(Filter::default(), Filter::All);
    assert_ne!(Filter::Active, Filter::Completed);
    assert_ne!(TaskState::Editing, TaskState::Idle);
    assert_eq!(
        TaskMessage::DescriptionEdited("x".to_string()),
        TaskMessage::DescriptionEdited("x".to_string())
    );
    assert_ne!(TaskMessage::Completed(true), TaskMessage::Completed(false));
    assert_ne!(TaskMessage::Edit, TaskMessage::FinishEdition);
    assert_ne!(TaskMessage::Delete, TaskMessage::Edit);
}
