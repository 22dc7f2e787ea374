//! The conversation between a session and whoever drives it: the session asks
//! for one [`Action`], the driver performs it and answers with one [`Event`].
//!
//! `H` is the driver's handle on a running process. A session carries handles
//! and never looks inside one.

use crate::error::{ErrorModel, VpnError};
use crate::installer::{InstallerOutcome, InstallerOutcomeModel};
use crate::launcher::LaunchStrategy;
use crate::paths::VpnFile;
use crate::probe::ProbeOutcome;
use crate::setup_log::{LogEntry, LogEntryModel};
use vstd::prelude::*;

verus! {

/// What the driver reports back.
#[derive(Debug, PartialEq, Eq)]
pub enum Event<H> {
    /// Answers [`Action::CheckFile`]. A file that cannot be examined counts
    /// as absent.
    FileChecked { exists: bool },
    /// Answers [`Action::CreateSetupLog`] and [`Action::AppendSetupLog`],
    /// whether or not the log could be written.
    LogWritten,
    /// Answers [`Action::CheckInstallation`].
    InstallationChecked { installed: bool },
    /// Answers [`Action::RunInstaller`].
    InstallerFinished(InstallerOutcome),
    /// Answers [`Action::Sleep`].
    Elapsed,
    /// Answers [`Action::Spawn`]: a process was created.
    Spawned(H),
    /// Answers [`Action::Spawn`]: no process was created.
    SpawnFailed { detail: String },
    /// Answers [`Action::Poll`]: the process has not exited.
    Running(H),
    /// Answers [`Action::Poll`]: the process has exited with `status`.
    Exited { status: String },
    /// Answers [`Action::Poll`]: the process could not be examined.
    PollFailed { detail: String },
    /// Answers [`Action::Probe`].
    Probed(ProbeOutcome),
    /// Answers [`Action::Kill`]; `failure` is set where the signal could not
    /// be sent.
    KillDone { process: H, failure: Option<String> },
    /// Answers [`Action::Reap`], whether or not the wait succeeded.
    Reaped,
}

/// What the session asks the driver to do.
#[derive(Debug, PartialEq, Eq)]
pub enum Action<H> {
    /// See whether the file exists.
    CheckFile(VpnFile),
    /// Replace the setup log by a fresh header, which bears the moment.
    CreateSetupLog,
    /// Append the entry to the setup log, under the stamp of the moment.
    AppendSetupLog(LogEntry),
    /// Find out whether the tunnel client is installed.
    CheckInstallation,
    /// Run the install script, elevated, and wait for it.
    RunInstaller,
    /// Let this many seconds pass.
    Sleep { seconds: u64 },
    /// Try to start the tunnel client in this way.
    Spawn(LaunchStrategy),
    /// See, without waiting, whether the process has exited.
    Poll(H),
    /// Ask the health endpoint once.
    Probe,
    /// Send the process the kill signal.
    Kill(H),
    /// Wait until the process has exited.
    Reap(H),
    /// The operation is over, with this result.
    Finished(Result<(), VpnError>),
    /// Another operation is in flight: ask again when it is over.
    Busy,
    /// The event answers nothing the session asked; here it is back.
    Rejected(Event<H>),
}

/// What an [`Event`] stands for.
pub enum EventModel<H> {
    FileChecked { exists: bool },
    LogWritten,
    InstallationChecked { installed: bool },
    InstallerFinished(InstallerOutcomeModel),
    Elapsed,
    Spawned(H),
    SpawnFailed { detail: Seq<char> },
    Running(H),
    Exited { status: Seq<char> },
    PollFailed { detail: Seq<char> },
    Probed(ProbeOutcome),
    KillDone { process: H, failure: Option<Seq<char>> },
    Reaped,
}

/// What an [`Action`] stands for.
pub enum ActionModel<H> {
    CheckFile(VpnFile),
    CreateSetupLog,
    AppendSetupLog(LogEntryModel),
    CheckInstallation,
    RunInstaller,
    Sleep { seconds: u64 },
    Spawn(LaunchStrategy),
    Poll(H),
    Probe,
    Kill(H),
    Reap(H),
    Finished(Result<(), ErrorModel>),
    Busy,
    Rejected(EventModel<H>),
}

impl<H> View for Event<H> {
    type V = EventModel<H>;

    open spec fn view(&self) -> EventModel<H> {
        match self {
            Event::FileChecked { exists } => EventModel::FileChecked { exists: *exists },
            Event::LogWritten => EventModel::LogWritten,
            Event::InstallationChecked { installed } => EventModel::InstallationChecked {
                installed: *installed,
            },
            Event::InstallerFinished(outcome) => EventModel::InstallerFinished(outcome@),
            Event::Elapsed => EventModel::Elapsed,
            Event::Spawned(process) => EventModel::Spawned(*process),
            Event::SpawnFailed { detail } => EventModel::SpawnFailed { detail: detail@ },
            Event::Running(process) => EventModel::Running(*process),
            Event::Exited { status } => EventModel::Exited { status: status@ },
            Event::PollFailed { detail } => EventModel::PollFailed { detail: detail@ },
            Event::Probed(outcome) => EventModel::Probed(*outcome),
            Event::KillDone { process, failure } => EventModel::KillDone {
                process: *process,
                failure: match failure {
                    Some(detail) => Some(detail@),
                    None => None,
                },
            },
            Event::Reaped => EventModel::Reaped,
        }
    }
}

impl<H> View for Action<H> {
    type V = ActionModel<H>;

    open spec fn view(&self) -> ActionModel<H> {
        match self {
            Action::CheckFile(file) => ActionModel::CheckFile(*file),
            Action::CreateSetupLog => ActionModel::CreateSetupLog,
            Action::AppendSetupLog(entry) => ActionModel::AppendSetupLog(entry@),
            Action::CheckInstallation => ActionModel::CheckInstallation,
            Action::RunInstaller => ActionModel::RunInstaller,
            Action::Sleep { seconds } => ActionModel::Sleep { seconds: *seconds },
            Action::Spawn(strategy) => ActionModel::Spawn(*strategy),
            Action::Poll(process) => ActionModel::Poll(*process),
            Action::Probe => ActionModel::Probe,
            Action::Kill(process) => ActionModel::Kill(*process),
            Action::Reap(process) => ActionModel::Reap(*process),
            Action::Finished(Ok(())) => ActionModel::Finished(Ok(())),
            Action::Finished(Err(error)) => ActionModel::Finished(Err(error@)),
            Action::Busy => ActionModel::Busy,
            Action::Rejected(event) => ActionModel::Rejected(event@),
        }
    }
}

} // verus!
