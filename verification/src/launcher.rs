//! How the tunnel client is started: the ways to try, in order, and the
//! command line of each.

use crate::paths::{PathsModel, VpnFile, VpnPaths};
use crate::platform::Platform;
use vstd::prelude::*;

verus! {

/// One way of starting the tunnel client.
#[derive(Clone, Copy, Debug, PartialEq, Eq, Structural)]
pub enum LaunchStrategy {
    /// Start the client itself; the host application is taken to run elevated.
    Direct,
    /// Through a helper that grants privileges without asking on the terminal.
    PrivilegedHelper,
    /// Through `sudo`, told to fail rather than ask for a password.
    SudoNonInteractive,
    /// Start the client without privileges: a real tunnel will not come up,
    /// but the failure is reported rather than awaited.
    Unprivileged,
}

/// The ways to try on a platform, first to last.
pub open spec fn launch_plan(platform: Platform) -> Seq<LaunchStrategy> {
    match platform {
        Platform::Windows => seq![LaunchStrategy::Direct],
        Platform::UnixLike => seq![
            LaunchStrategy::PrivilegedHelper,
            LaunchStrategy::SudoNonInteractive,
            LaunchStrategy::Unprivileged,
        ],
    }
}

/// The way to try after `strategy` failed to start a process, if one is left.
pub open spec fn fallback(strategy: LaunchStrategy) -> Option<LaunchStrategy> {
    match strategy {
        LaunchStrategy::PrivilegedHelper => Some(LaunchStrategy::SudoNonInteractive),
        LaunchStrategy::SudoNonInteractive => Some(LaunchStrategy::Unprivileged),
        LaunchStrategy::Direct | LaunchStrategy::Unprivileged => None,
    }
}

pub fn first_strategy(platform: Platform) -> (strategy: LaunchStrategy)
    ensures
        strategy == launch_plan(platform)[0],
{
    match platform {
        Platform::Windows => LaunchStrategy::Direct,
        Platform::UnixLike => LaunchStrategy::PrivilegedHelper,
    }
}

pub fn next_strategy(strategy: LaunchStrategy) -> (next: Option<LaunchStrategy>)
    ensures
        next == fallback(strategy),
{
    match strategy {
        LaunchStrategy::PrivilegedHelper => Some(LaunchStrategy::SudoNonInteractive),
        LaunchStrategy::SudoNonInteractive => Some(LaunchStrategy::Unprivileged),
        LaunchStrategy::Direct | LaunchStrategy::Unprivileged => None,
    }
}

/// The fallback order is the plan's order: `fallback` leads from each entry
/// of `launch_plan` to the next, and from the last to none.
pub proof fn law_fallback_walks_plan(platform: Platform, index: int)
    requires
        0 <= index < launch_plan(platform).len(),
    ensures
        fallback(launch_plan(platform)[index]) == if index + 1 < launch_plan(platform).len() {
            Some(launch_plan(platform)[index + 1])
        } else {
            None
        },
{
}

/// A program and the arguments it is started with.
#[derive(Debug, PartialEq, Eq)]
pub struct Invocation {
    pub program: String,
    pub args: Vec<String>,
}

/// What an [`Invocation`] stands for.
pub struct InvocationModel {
    pub program: Seq<char>,
    pub args: Seq<Seq<char>>,
}

/// The texts of a list of strings.
pub open spec fn texts(strings: Seq<String>) -> Seq<Seq<char>> {
    Seq::new(strings.len(), |i: int| strings[i]@)
}

impl View for Invocation {
    type V = InvocationModel;

    open spec fn view(&self) -> InvocationModel {
        InvocationModel { program: self.program@, args: texts(self.args@) }
    }
}

/// Appends a copy of `text` to `list`.
pub fn push_text(list: &mut Vec<String>, text: &str)
    ensures
        texts(final(list)@) == texts(old(list)@).push(text@),
{
    list.push(String::from_str(text));
    assert(texts(list@) =~= texts(old(list)@).push(text@));
}

/// The four files every launch names, each behind its option.
pub open spec fn client_arguments(paths: PathsModel) -> Seq<Seq<char>> {
    seq![
        "--config"@,
        paths.locate(VpnFile::Config),
        "--auth-user-pass"@,
        paths.locate(VpnFile::Credentials),
        "--log"@,
        paths.locate(VpnFile::ClientLog),
        "--writepid"@,
        paths.locate(VpnFile::PidFile),
    ]
}

impl LaunchStrategy {
    /// The program this strategy starts.
    pub open spec fn program_text(self) -> Seq<char> {
        match self {
            LaunchStrategy::Direct => "openvpn.exe"@,
            LaunchStrategy::PrivilegedHelper => "pkexec"@,
            LaunchStrategy::SudoNonInteractive => "sudo"@,
            LaunchStrategy::Unprivileged => "openvpn"@,
        }
    }

    /// What stands before the client's own arguments.
    pub open spec fn leading_arguments(self) -> Seq<Seq<char>> {
        match self {
            LaunchStrategy::Direct | LaunchStrategy::Unprivileged => seq![],
            LaunchStrategy::PrivilegedHelper => seq!["openvpn"@],
            LaunchStrategy::SudoNonInteractive => seq!["-n"@, "openvpn"@],
        }
    }

    pub open spec fn invocation_model(self, paths: PathsModel) -> InvocationModel {
        InvocationModel {
            program: self.program_text(),
            args: self.leading_arguments() + client_arguments(paths),
        }
    }

    /// The command line of this strategy for the files under `paths`.
    pub fn invocation(&self, paths: &VpnPaths) -> (command: Invocation)
        ensures
            command@ == self.invocation_model(paths@),
    {
        let mut args: Vec<String> = Vec::new();
        assert(texts(args@) =~= seq![]);
        let program = match self {
            LaunchStrategy::Direct => "openvpn.exe",
            LaunchStrategy::PrivilegedHelper => {
                push_text(&mut args, "openvpn");
                "pkexec"
            },
            LaunchStrategy::SudoNonInteractive => {
                push_text(&mut args, "-n");
                push_text(&mut args, "openvpn");
                "sudo"
            },
            LaunchStrategy::Unprivileged => "openvpn",
        };
        assert(texts(args@) =~= self.leading_arguments());
        push_text(&mut args, "--config");
        push_text(&mut args, paths.locate(VpnFile::Config).as_str());
        push_text(&mut args, "--auth-user-pass");
        push_text(&mut args, paths.locate(VpnFile::Credentials).as_str());
        push_text(&mut args, "--log");
        push_text(&mut args, paths.locate(VpnFile::ClientLog).as_str());
        push_text(&mut args, "--writepid");
        push_text(&mut args, paths.locate(VpnFile::PidFile).as_str());
        assert(texts(args@) =~= self.leading_arguments() + client_arguments(paths@));
        Invocation { program: String::from_str(program), args }
    }
}

} // verus!
