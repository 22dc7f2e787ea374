//! The connection manager: the one session of the host application.
//!
//! The manager never touches a file, a process or the network. `connect` and
//! `disconnect` begin an operation and say what to do first; `resume` takes
//! the answer and says what to do next, until the answer is
//! [`Action::Finished`].

use crate::error::{InstallFailure, VpnError};
use crate::installer::SETTLE_SECONDS;
use crate::launcher::{first_strategy, next_strategy, LaunchStrategy};
use crate::paths::{VpnFile, VpnPaths};
use crate::protocol::{Action, Event};
use crate::session::{
    ConnectStageModel, DisconnectStage, PendingModel, SessionModel, SessionState, GRACE_SECONDS,
};
use crate::setup_log::LogEntry;
use vstd::prelude::*;

verus! {

enum ConnectStage<H> {
    ConfigCheck,
    CredentialsCheck,
    HeaderLog,
    Detection,
    PresenceLog,
    InstallNotice,
    PackageCheck,
    ScriptCheck,
    InstallerRun,
    Settling,
    Recheck,
    InstallDoneLog,
    Reporting(VpnError),
    Launching(LaunchStrategy),
    Grace(H),
    Polling,
    ProbingLive(H),
    ProbingExited { status: String },
    Killing,
}

enum Pending<H> {
    Nothing,
    Connect { paths: VpnPaths, stage: ConnectStage<H> },
    Disconnect(DisconnectStage),
}

/// The session and the one who decides its every step.
pub struct VpnManager<H> {
    state: SessionState,
    process: Option<H>,
    pending: Pending<H>,
}

impl<H> View for ConnectStage<H> {
    type V = ConnectStageModel<H>;

    closed spec fn view(&self) -> ConnectStageModel<H> {
        match self {
            ConnectStage::ConfigCheck => ConnectStageModel::ConfigCheck,
            ConnectStage::CredentialsCheck => ConnectStageModel::CredentialsCheck,
            ConnectStage::HeaderLog => ConnectStageModel::HeaderLog,
            ConnectStage::Detection => ConnectStageModel::Detection,
            ConnectStage::PresenceLog => ConnectStageModel::PresenceLog,
            ConnectStage::InstallNotice => ConnectStageModel::InstallNotice,
            ConnectStage::PackageCheck => ConnectStageModel::PackageCheck,
            ConnectStage::ScriptCheck => ConnectStageModel::ScriptCheck,
            ConnectStage::InstallerRun => ConnectStageModel::InstallerRun,
            ConnectStage::Settling => ConnectStageModel::Settling,
            ConnectStage::Recheck => ConnectStageModel::Recheck,
            ConnectStage::InstallDoneLog => ConnectStageModel::InstallDoneLog,
            ConnectStage::Reporting(error) => ConnectStageModel::Reporting(error@),
            ConnectStage::Launching(strategy) => ConnectStageModel::Launching(*strategy),
            ConnectStage::Grace(process) => ConnectStageModel::Grace(*process),
            ConnectStage::Polling => ConnectStageModel::Polling,
            ConnectStage::ProbingLive(process) => ConnectStageModel::ProbingLive(*process),
            ConnectStage::ProbingExited { status } => ConnectStageModel::ProbingExited {
                status: status@,
            },
            ConnectStage::Killing => ConnectStageModel::Killing,
        }
    }
}

impl<H> View for Pending<H> {
    type V = PendingModel<H>;

    closed spec fn view(&self) -> PendingModel<H> {
        match self {
            Pending::Nothing => PendingModel::Nothing,
            Pending::Connect { paths, stage } => PendingModel::Connect {
                paths: paths@,
                stage: stage@,
            },
            Pending::Disconnect(stage) => PendingModel::Disconnect(*stage),
        }
    }
}

impl<H> View for VpnManager<H> {
    type V = SessionModel<H>;

    closed spec fn view(&self) -> SessionModel<H> {
        SessionModel { state: self.state, process: self.process, pending: self.pending@ }
    }
}

impl<H> VpnManager<H> {
    /// A manager whose session is disconnected and tracks no process.
    pub fn new() -> (manager: Self)
        ensures
            manager@ == SessionModel::<H>::initial(),
    {
        VpnManager { state: SessionState::Disconnected, process: None, pending: Pending::Nothing }
    }

    pub fn state(&self) -> (state: SessionState)
        ensures
            state == self@.state,
    {
        self.state
    }

    /// Whether the session is connected, as far as the manager knows.
    pub fn is_connected(&self) -> (yes: bool)
        ensures
            yes == (self@.state == SessionState::Connected),
    {
        self.state == SessionState::Connected
    }

    /// Whether the session holds the handle of a process.
    pub fn tracks_process(&self) -> (yes: bool)
        ensures
            yes == self@.process is Some,
    {
        self.process.is_some()
    }

    /// Whether an operation is in flight.
    pub fn is_busy(&self) -> (yes: bool)
        ensures
            yes == !self@.resting(),
    {
        match &self.pending {
            Pending::Nothing => false,
            _ => true,
        }
    }

    /// Begins a connect attempt for the files under `paths`, and says what to
    /// do first. While an operation is in flight the answer is
    /// [`Action::Busy`] and nothing changes.
    pub fn connect(&mut self, paths: VpnPaths) -> (action: Action<H>)
        ensures
            (final(self)@, action@) == old(self)@.connect(paths@),
    {
        if self.is_busy() {
            return Action::Busy;
        }
        if self.process.is_some() {
            self.state = SessionState::Connected;
        } else {
            self.state = SessionState::Connecting;
        }
        self.pending = Pending::Connect { paths, stage: ConnectStage::ConfigCheck };
        Action::CheckFile(VpnFile::Config)
    }

    /// Begins a disconnect, and says what to do first. With no process
    /// tracked there is nothing to do. While an operation is in flight the
    /// answer is [`Action::Busy`] and nothing changes.
    pub fn disconnect(&mut self) -> (action: Action<H>)
        ensures
            (final(self)@, action@) == old(self)@.disconnect(),
    {
        if self.is_busy() {
            return Action::Busy;
        }
        match self.process.take() {
            None => {
                self.state = SessionState::Disconnected;
                Action::Finished(Ok(()))
            },
            Some(process) => {
                self.state = SessionState::Disconnecting;
                self.pending = Pending::Disconnect(DisconnectStage::Terminating);
                Action::Kill(process)
            },
        }
    }

    /// Takes the answer to the action last asked for, and says what to do
    /// next. An event that answers nothing asked comes back in
    /// [`Action::Rejected`], and nothing changes.
    pub fn resume(&mut self, event: Event<H>) -> (action: Action<H>)
        ensures
            (final(self)@, action@) == old(self)@.resume(event@),
    {
        let mut pending = Pending::Nothing;
        core::mem::swap(&mut self.pending, &mut pending);
        match pending {
            Pending::Nothing => Action::Rejected(event),
            Pending::Connect { paths, stage } => self.resume_connect(paths, stage, event),
            Pending::Disconnect(stage) => self.resume_disconnect(stage, event),
        }
    }

    /// The session as it was before its pending operation was taken out.
    spec fn holding(&self, pending: PendingModel<H>) -> SessionModel<H> {
        SessionModel { state: self.state, process: self.process, pending }
    }

    fn proceed(&mut self, paths: VpnPaths, stage: ConnectStage<H>, action: Action<H>) -> (asked:
        Action<H>)
        ensures
            (final(self)@, asked@) == old(self)@.proceed(paths@, stage@, action@),
    {
        self.pending = Pending::Connect { paths, stage };
        action
    }

    fn fail(&mut self, error: VpnError) -> (action: Action<H>)
        ensures
            (final(self)@, action@) == old(self)@.fail(error@),
    {
        if self.process.is_some() {
            self.state = SessionState::Connected;
        } else {
            self.state = SessionState::Failed;
        }
        self.pending = Pending::Nothing;
        Action::Finished(Err(error))
    }

    fn report(&mut self, paths: VpnPaths, error: VpnError) -> (action: Action<H>)
        ensures
            (final(self)@, action@) == old(self)@.report(paths@, error@),
    {
        let message = error.message();
        self.proceed(
            paths,
            ConnectStage::Reporting(error),
            Action::AppendSetupLog(LogEntry::Failure { message }),
        )
    }

    fn launch(&mut self, paths: VpnPaths, strategy: LaunchStrategy) -> (action: Action<H>)
        ensures
            (final(self)@, action@) == old(self)@.launch(paths@, strategy),
    {
        self.proceed(paths, ConnectStage::Launching(strategy), Action::Spawn(strategy))
    }

    fn succeed(&mut self, process: Option<H>) -> (action: Action<H>)
        ensures
            (final(self)@, action@) == old(self)@.succeed(process),
    {
        self.state = SessionState::Connected;
        if process.is_some() {
            self.process = process;
        }
        self.pending = Pending::Nothing;
        Action::Finished(Ok(()))
    }

    fn resume_connect(&mut self, paths: VpnPaths, stage: ConnectStage<H>, event: Event<H>) -> (action:
        Action<H>)
        requires
            old(self).pending is Nothing,
        ensures
            (final(self)@, action@) == old(self).holding(
                PendingModel::Connect { paths: paths@, stage: stage@ },
            ).resume(event@),
    {
        match (stage, event) {
            (ConnectStage::ConfigCheck, Event::FileChecked { exists }) => if exists {
                self.proceed(
                    paths,
                    ConnectStage::CredentialsCheck,
                    Action::CheckFile(VpnFile::Credentials),
                )
            } else {
                self.fail(VpnError::ConfigMissing { path: paths.locate(VpnFile::Config) })
            },
            (ConnectStage::CredentialsCheck, Event::FileChecked { exists }) => if exists {
                self.proceed(paths, ConnectStage::HeaderLog, Action::CreateSetupLog)
            } else {
                self.fail(VpnError::CredentialsMissing { path: paths.locate(VpnFile::Credentials) })
            },
            (ConnectStage::HeaderLog, Event::LogWritten) => if paths.platform.supports_auto_install() {
                self.proceed(paths, ConnectStage::Detection, Action::CheckInstallation)
            } else {
                self.proceed(
                    paths,
                    ConnectStage::PresenceLog,
                    Action::AppendSetupLog(LogEntry::AlreadyInstalled),
                )
            },
            (ConnectStage::PresenceLog, Event::LogWritten) => {
                let strategy = first_strategy(paths.platform);
                self.launch(paths, strategy)
            },
            (ConnectStage::Reporting(error), Event::LogWritten) => self.fail(error),
            (ConnectStage::Detection, Event::InstallationChecked { installed }) => if installed {
                self.proceed(
                    paths,
                    ConnectStage::PresenceLog,
                    Action::AppendSetupLog(LogEntry::AlreadyInstalled),
                )
            } else {
                self.proceed(
                    paths,
                    ConnectStage::InstallNotice,
                    Action::AppendSetupLog(LogEntry::InstallStarted),
                )
            },
            (ConnectStage::InstallNotice, Event::LogWritten) => self.proceed(
                paths,
                ConnectStage::PackageCheck,
                Action::CheckFile(VpnFile::InstallerPackage),
            ),
            (ConnectStage::PackageCheck, Event::FileChecked { exists }) => if exists {
                self.proceed(
                    paths,
                    ConnectStage::ScriptCheck,
                    Action::CheckFile(VpnFile::InstallScript),
                )
            } else {
                let path = paths.locate(VpnFile::InstallerPackage);
                self.report(paths, VpnError::InstallFailed(InstallFailure::PackageMissing { path }))
            },
            (ConnectStage::ScriptCheck, Event::FileChecked { exists }) => if exists {
                self.proceed(paths, ConnectStage::InstallerRun, Action::RunInstaller)
            } else {
                let path = paths.locate(VpnFile::InstallScript);
                self.report(paths, VpnError::InstallFailed(InstallFailure::ScriptMissing { path }))
            },
            (ConnectStage::InstallerRun, Event::InstallerFinished(outcome)) => match outcome.into_failure() {
                Some(failure) => self.report(paths, VpnError::InstallFailed(failure)),
                None => self.proceed(
                    paths,
                    ConnectStage::Settling,
                    Action::Sleep { seconds: SETTLE_SECONDS },
                ),
            },
            (ConnectStage::Settling, Event::Elapsed) => self.proceed(
                paths,
                ConnectStage::Recheck,
                Action::CheckInstallation,
            ),
            (ConnectStage::Recheck, Event::InstallationChecked { installed }) => if installed {
                self.proceed(
                    paths,
                    ConnectStage::InstallDoneLog,
                    Action::AppendSetupLog(LogEntry::InstallCompleted),
                )
            } else {
                self.report(paths, VpnError::InstallationMissing)
            },
            (ConnectStage::InstallDoneLog, Event::LogWritten) => {
                let strategy = first_strategy(paths.platform);
                self.launch(paths, strategy)
            },
            (ConnectStage::Launching(_), Event::Spawned(process)) => self.proceed(
                paths,
                ConnectStage::Grace(process),
                Action::Sleep { seconds: GRACE_SECONDS },
            ),
            (ConnectStage::Launching(strategy), Event::SpawnFailed { detail }) => match next_strategy(
                strategy,
            ) {
                Some(next) => self.launch(paths, next),
                None => {
                    let platform = paths.platform;
                    self.report(paths, VpnError::SpawnFailed { platform, detail })
                },
            },
            (ConnectStage::Grace(process), Event::Elapsed) => self.proceed(
                paths,
                ConnectStage::Polling,
                Action::Poll(process),
            ),
            (ConnectStage::Polling, Event::Running(process)) => self.proceed(
                paths,
                ConnectStage::ProbingLive(process),
                Action::Probe,
            ),
            (ConnectStage::Polling, Event::Exited { status }) => self.proceed(
                paths,
                ConnectStage::ProbingExited { status },
                Action::Probe,
            ),
            (ConnectStage::Polling, Event::PollFailed { detail }) => self.fail(
                VpnError::LivenessUnknown { detail },
            ),
            (ConnectStage::ProbingLive(process), Event::Probed(outcome)) => if outcome.is_healthy() {
                self.succeed(Some(process))
            } else {
                self.proceed(paths, ConnectStage::Killing, Action::Kill(process))
            },
            (ConnectStage::ProbingExited { status }, Event::Probed(outcome)) => if outcome.is_healthy() {
                self.succeed(None)
            } else {
                self.fail(VpnError::ProcessExitedNoConnectivity { status })
            },
            (ConnectStage::Killing, Event::KillDone { .. }) => self.fail(
                VpnError::NoConnectivityAfterLaunch,
            ),
            (stage, event) => {
                self.pending = Pending::Connect { paths, stage };
                Action::Rejected(event)
            },
        }
    }

    fn resume_disconnect(&mut self, stage: DisconnectStage, event: Event<H>) -> (action: Action<H>)
        requires
            old(self).pending is Nothing,
        ensures
            (final(self)@, action@) == old(self).holding(PendingModel::Disconnect(stage)).resume(
                event@,
            ),
    {
        match (stage, event) {
            (DisconnectStage::Terminating, Event::KillDone { process, failure }) => match failure {
                None => {
                    self.pending = Pending::Disconnect(DisconnectStage::Reaping);
                    Action::Reap(process)
                },
                Some(detail) => {
                    self.state = SessionState::Failed;
                    Action::Finished(Err(VpnError::TerminationFailed { detail }))
                },
            },
            (DisconnectStage::Reaping, Event::Reaped) => {
                self.state = SessionState::Disconnected;
                Action::Finished(Ok(()))
            },
            (stage, event) => {
                self.pending = Pending::Disconnect(stage);
                Action::Rejected(event)
            },
        }
    }
}

} // verus!
