//! The command lines by which requests reach the i3 window manager and the
//! operating system.

use crate::run::Request;
use crate::types::args_view;
use vstd::prelude::*;
use vstd::string::StringExecFns;

verus! {

/// A program to run with its arguments.
#[derive(Clone, Debug, PartialEq, Eq)]
pub struct CommandLine {
    pub program: String,
    pub args: Vec<String>,
    /// Whether the host waits for the program and reports what it printed,
    /// rather than leaving it to run on its own.
    pub capture: bool,
}

/// The texts of a list of strings.
pub open spec fn texts(strings: Seq<String>) -> Seq<Seq<char>> {
    strings.map_values(|s: String| s@)
}

/// The program that carries out `request`.
pub open spec fn program_of(request: Request) -> Seq<char> {
    match request {
        Request::SwitchWorkspace { .. } => "i3-msg"@,
        Request::QueryWorkspace { .. } => "i3-save-tree"@,
        Request::Spawn { program, .. } => program@,
    }
}

/// The arguments with which that program carries out `request`.
pub open spec fn args_of(request: Request) -> Seq<Seq<char>> {
    match request {
        Request::SwitchWorkspace { workspace_name } => seq!["workspace "@ + workspace_name@],
        Request::QueryWorkspace { workspace_name } => seq!["--workspace"@, workspace_name@],
        Request::Spawn { args, .. } => args_view(args),
    }
}

/// Copies a list of arguments into owned strings.
pub fn owned_args(args: &[&'static str]) -> (owned: Vec<String>)
    ensures
        texts(owned@) == args_view(args),
{
    let mut owned: Vec<String> = Vec::new();
    let mut i: usize = 0;
    while i < args.len()
        invariant
            i <= args@.len(),
            owned@.len() == i,
            forall|j: int| 0 <= j < i ==> (#[trigger] owned@[j])@ == args@[j]@,
        decreases args@.len() - i,
    {
        let arg = args[i].to_owned();
        owned.push(arg);
        i += 1;
    }
    assert(texts(owned@) =~= args_view(args));
    owned
}

/// The command line that carries out `request`: `i3-msg` to switch to a
/// workspace, `i3-save-tree` to dump one, the program itself to start it.
/// Only the dump is waited for.
pub fn command_for(request: &Request) -> (line: CommandLine)
    ensures
        line.program@ == program_of(*request),
        texts(line.args@) == args_of(*request),
        line.capture == (*request is QueryWorkspace),
{
    match request {
        Request::SwitchWorkspace { workspace_name } => {
            let mut args: Vec<String> = Vec::new();
            let arg = "workspace ".to_owned().concat(workspace_name);
            args.push(arg);
            assert(texts(args@) =~= args_of(*request));
            CommandLine { program: "i3-msg".to_owned(), args, capture: false }
        },
        Request::QueryWorkspace { workspace_name } => {
            let mut args: Vec<String> = Vec::new();
            let flag = "--workspace".to_owned();
            args.push(flag);
            let name = (*workspace_name).to_owned();
            args.push(name);
            assert(texts(args@) =~= args_of(*request));
            CommandLine { program: "i3-save-tree".to_owned(), args, capture: true }
        },
        Request::Spawn { program, args } => CommandLine {
            program: (*program).to_owned(),
            args: owned_args(args),
            capture: false,
        },
    }
}

} // verus!
