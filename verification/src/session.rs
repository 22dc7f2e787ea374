//! What a session is, and how it moves: the model that the manager's
//! contracts speak of.
//!
//! A session rests, or has one operation in flight. A connect attempt walks
//! through its stages in a fixed order: the two required files, the setup
//! log, the installation (on Windows only), the launch with its fallbacks,
//! the grace period, and the verdict of the connectivity probe.

use crate::error::{ErrorModel, InstallFailureModel};
use crate::installer::SETTLE_SECONDS;
use crate::launcher::{fallback, launch_plan, LaunchStrategy};
use crate::paths::{PathsModel, VpnFile};
use crate::protocol::{ActionModel, EventModel};
use crate::setup_log::LogEntryModel;
use vstd::prelude::*;

verus! {

/// Seconds between a successful spawn and the first look at the process.
pub const GRACE_SECONDS: u64 = 10;

/// The state a session shows to the outside.
#[derive(Clone, Copy, Debug, PartialEq, Eq, Structural)]
pub enum SessionState {
    Disconnected,
    Connecting,
    Connected,
    Disconnecting,
    Failed,
}

/// Where a disconnect stands.
#[derive(Clone, Copy, Debug, PartialEq, Eq, Structural)]
pub enum DisconnectStage {
    /// The kill signal was asked for.
    Terminating,
    /// The signal was sent; the process's exit is awaited.
    Reaping,
}

/// Where a connect attempt stands: what it has asked for and waits on.
pub enum ConnectStageModel<H> {
    ConfigCheck,
    CredentialsCheck,
    HeaderLog,
    Detection,
    PresenceLog,
    InstallNotice,
    PackageCheck,
    ScriptCheck,
    InstallerRun,
    Settling,
    Recheck,
    InstallDoneLog,
    /// The error is being written to the setup log, and is returned after.
    Reporting(ErrorModel),
    Launching(LaunchStrategy),
    Grace(H),
    Polling,
    /// The process runs; the probe decides whether it is kept.
    ProbingLive(H),
    /// The process has exited with `status`; the probe decides whether the
    /// tunnel is up all the same, as it is where the client has handed the
    /// tunnel to a process of its own. The probe cannot tell that from an
    /// endpoint that is reachable without any tunnel: such a session counts
    /// as connected too.
    ProbingExited { status: Seq<char> },
    Killing,
}

/// The operation in flight, if any.
pub enum PendingModel<H> {
    Nothing,
    Connect { paths: PathsModel, stage: ConnectStageModel<H> },
    Disconnect(DisconnectStage),
}

/// A session: its state, the process it tracks, and the operation in flight.
pub struct SessionModel<H> {
    pub state: SessionState,
    pub process: Option<H>,
    pub pending: PendingModel<H>,
}

impl<H> SessionModel<H> {
    /// A new session: disconnected, no process, nothing in flight.
    pub open spec fn initial() -> Self {
        SessionModel {
            state: SessionState::Disconnected,
            process: None,
            pending: PendingModel::Nothing,
        }
    }

    /// No operation is in flight.
    pub open spec fn resting(self) -> bool {
        self.pending is Nothing
    }

    /// What holds of every session that `initial`, `connect`, `disconnect`
    /// and `resume` can lead to. A process is tracked by a connected session
    /// only. A session at rest is disconnected, connected or failed. One that
    /// connects with no process tracked shows `Connecting`, one that
    /// disconnects shows `Disconnecting`. An attempt spawns only with a
    /// strategy of its platform's plan, and installs only where the platform
    /// allows it.
    pub open spec fn well_formed(self) -> bool {
        &&& self.process is Some ==> self.state == SessionState::Connected
        &&& match self.pending {
            PendingModel::Nothing => self.state == SessionState::Disconnected || self.state
                == SessionState::Connected || self.state == SessionState::Failed,
            PendingModel::Connect { paths, stage } => {
                &&& self.process is None ==> self.state == SessionState::Connecting
                &&& stage matches ConnectStageModel::Launching(strategy) ==> launch_plan(
                    paths.platform,
                ).contains(strategy)
                &&& stage.installs() ==> paths.platform.auto_installs()
            },
            PendingModel::Disconnect(_) => self.state == SessionState::Disconnecting,
        }
    }

    /// The state an attempt leaves behind when it has not connected: a
    /// process tracked from before keeps the session connected.
    pub open spec fn state_without_tunnel(self) -> SessionState {
        if self.process is Some {
            SessionState::Connected
        } else {
            SessionState::Failed
        }
    }

    /// A connect attempt begins, unless an operation is in flight.
    pub open spec fn connect(self, paths: PathsModel) -> (Self, ActionModel<H>) {
        if !self.resting() {
            (self, ActionModel::Busy)
        } else {
            (
                SessionModel {
                    state: if self.process is Some {
                        SessionState::Connected
                    } else {
                        SessionState::Connecting
                    },
                    process: self.process,
                    pending: PendingModel::Connect { paths, stage: ConnectStageModel::ConfigCheck },
                },
                ActionModel::CheckFile(VpnFile::Config),
            )
        }
    }

    /// A disconnect begins, unless an operation is in flight. With no process
    /// tracked it is over at once.
    pub open spec fn disconnect(self) -> (Self, ActionModel<H>) {
        if !self.resting() {
            (self, ActionModel::Busy)
        } else {
            match self.process {
                None => (
                    SessionModel {
                        state: SessionState::Disconnected,
                        process: None,
                        pending: PendingModel::Nothing,
                    },
                    ActionModel::Finished(Ok(())),
                ),
                Some(process) => (
                    SessionModel {
                        state: SessionState::Disconnecting,
                        process: None,
                        pending: PendingModel::Disconnect(DisconnectStage::Terminating),
                    },
                    ActionModel::Kill(process),
                ),
            }
        }
    }

    /// The operation in flight takes the answer to what it last asked.
    pub open spec fn resume(self, event: EventModel<H>) -> (Self, ActionModel<H>) {
        match self.pending {
            PendingModel::Nothing => self.reject(event),
            PendingModel::Connect { paths, stage } => if stage.installs() {
                self.resume_install(paths, stage, event)
            } else if stage.supervises() {
                self.resume_supervision(paths, stage, event)
            } else {
                self.resume_preparation(paths, stage, event)
            },
            PendingModel::Disconnect(stage) => self.resume_disconnect(stage, event),
        }
    }

    pub open spec fn reject(self, event: EventModel<H>) -> (Self, ActionModel<H>) {
        (self, ActionModel::Rejected(event))
    }

    /// The attempt goes on to `stage` and asks for `action`.
    pub open spec fn proceed(
        self,
        paths: PathsModel,
        stage: ConnectStageModel<H>,
        action: ActionModel<H>,
    ) -> (Self, ActionModel<H>) {
        (
            SessionModel {
                state: self.state,
                process: self.process,
                pending: PendingModel::Connect { paths, stage },
            },
            action,
        )
    }

    /// The attempt ends with `error`.
    pub open spec fn fail(self, error: ErrorModel) -> (Self, ActionModel<H>) {
        (
            SessionModel {
                state: self.state_without_tunnel(),
                process: self.process,
                pending: PendingModel::Nothing,
            },
            ActionModel::Finished(Err(error)),
        )
    }

    /// The attempt will end with `error`, once the setup log holds it.
    pub open spec fn report(self, paths: PathsModel, error: ErrorModel) -> (Self, ActionModel<H>) {
        self.proceed(
            paths,
            ConnectStageModel::Reporting(error),
            ActionModel::AppendSetupLog(LogEntryModel::Failure { message: error.message() }),
        )
    }

    /// The attempt tries `strategy`.
    pub open spec fn launch(self, paths: PathsModel, strategy: LaunchStrategy) -> (
        Self,
        ActionModel<H>,
    ) {
        self.proceed(paths, ConnectStageModel::Launching(strategy), ActionModel::Spawn(strategy))
    }

    /// The attempt ends connected; `process` is tracked from now on, where
    /// there is one.
    pub open spec fn succeed(self, process: Option<H>) -> (Self, ActionModel<H>) {
        (
            SessionModel {
                state: SessionState::Connected,
                process: if process is Some {
                    process
                } else {
                    self.process
                },
                pending: PendingModel::Nothing,
            },
            ActionModel::Finished(Ok(())),
        )
    }

    /// The stages before the launch that need no installation.
    pub open spec fn resume_preparation(
        self,
        paths: PathsModel,
        stage: ConnectStageModel<H>,
        event: EventModel<H>,
    ) -> (Self, ActionModel<H>) {
        match (stage, event) {
            (ConnectStageModel::ConfigCheck, EventModel::FileChecked { exists }) => if exists {
                self.proceed(
                    paths,
                    ConnectStageModel::CredentialsCheck,
                    ActionModel::CheckFile(VpnFile::Credentials),
                )
            } else {
                self.fail(ErrorModel::ConfigMissing { path: paths.locate(VpnFile::Config) })
            },
            (ConnectStageModel::CredentialsCheck, EventModel::FileChecked { exists }) => if exists {
                self.proceed(paths, ConnectStageModel::HeaderLog, ActionModel::CreateSetupLog)
            } else {
                self.fail(
                    ErrorModel::CredentialsMissing { path: paths.locate(VpnFile::Credentials) },
                )
            },
            (ConnectStageModel::HeaderLog, EventModel::LogWritten) => if paths.platform.auto_installs() {
                self.proceed(paths, ConnectStageModel::Detection, ActionModel::CheckInstallation)
            } else {
                self.proceed(
                    paths,
                    ConnectStageModel::PresenceLog,
                    ActionModel::AppendSetupLog(LogEntryModel::AlreadyInstalled),
                )
            },
            (ConnectStageModel::PresenceLog, EventModel::LogWritten) => self.launch(
                paths,
                launch_plan(paths.platform)[0],
            ),
            (ConnectStageModel::Reporting(error), EventModel::LogWritten) => self.fail(error),
            _ => self.reject(event),
        }
    }

    /// The stages of an installation, from the look for the client to the
    /// look for it again.
    pub open spec fn resume_install(
        self,
        paths: PathsModel,
        stage: ConnectStageModel<H>,
        event: EventModel<H>,
    ) -> (Self, ActionModel<H>) {
        match (stage, event) {
            (ConnectStageModel::Detection, EventModel::InstallationChecked { installed }) => if installed {
                self.proceed(
                    paths,
                    ConnectStageModel::PresenceLog,
                    ActionModel::AppendSetupLog(LogEntryModel::AlreadyInstalled),
                )
            } else {
                self.proceed(
                    paths,
                    ConnectStageModel::InstallNotice,
                    ActionModel::AppendSetupLog(LogEntryModel::InstallStarted),
                )
            },
            (ConnectStageModel::InstallNotice, EventModel::LogWritten) => self.proceed(
                paths,
                ConnectStageModel::PackageCheck,
                ActionModel::CheckFile(VpnFile::InstallerPackage),
            ),
            (ConnectStageModel::PackageCheck, EventModel::FileChecked { exists }) => if exists {
                self.proceed(
                    paths,
                    ConnectStageModel::ScriptCheck,
                    ActionModel::CheckFile(VpnFile::InstallScript),
                )
            } else {
                self.report(
                    paths,
                    ErrorModel::InstallFailed(
                        InstallFailureModel::PackageMissing {
                            path: paths.locate(VpnFile::InstallerPackage),
                        },
                    ),
                )
            },
            (ConnectStageModel::ScriptCheck, EventModel::FileChecked { exists }) => if exists {
                self.proceed(paths, ConnectStageModel::InstallerRun, ActionModel::RunInstaller)
            } else {
                self.report(
                    paths,
                    ErrorModel::InstallFailed(
                        InstallFailureModel::ScriptMissing {
                            path: paths.locate(VpnFile::InstallScript),
                        },
                    ),
                )
            },
            (ConnectStageModel::InstallerRun, EventModel::InstallerFinished(outcome)) => match outcome.failure() {
                Some(failure) => self.report(paths, ErrorModel::InstallFailed(failure)),
                None => self.proceed(
                    paths,
                    ConnectStageModel::Settling,
                    ActionModel::Sleep { seconds: SETTLE_SECONDS },
                ),
            },
            (ConnectStageModel::Settling, EventModel::Elapsed) => self.proceed(
                paths,
                ConnectStageModel::Recheck,
                ActionModel::CheckInstallation,
            ),
            (ConnectStageModel::Recheck, EventModel::InstallationChecked { installed }) => if installed {
                self.proceed(
                    paths,
                    ConnectStageModel::InstallDoneLog,
                    ActionModel::AppendSetupLog(LogEntryModel::InstallCompleted),
                )
            } else {
                self.report(paths, ErrorModel::InstallationMissing)
            },
            (ConnectStageModel::InstallDoneLog, EventModel::LogWritten) => self.launch(
                paths,
                launch_plan(paths.platform)[0],
            ),
            _ => self.reject(event),
        }
    }

    /// The launch with its fallbacks, the grace period, and the verdict.
    pub open spec fn resume_supervision(
        self,
        paths: PathsModel,
        stage: ConnectStageModel<H>,
        event: EventModel<H>,
    ) -> (Self, ActionModel<H>) {
        match (stage, event) {
            (ConnectStageModel::Launching(_), EventModel::Spawned(process)) => self.proceed(
                paths,
                ConnectStageModel::Grace(process),
                ActionModel::Sleep { seconds: GRACE_SECONDS },
            ),
            (ConnectStageModel::Launching(strategy), EventModel::SpawnFailed { detail }) => match fallback(
                strategy,
            ) {
                Some(next) => self.launch(paths, next),
                None => self.report(
                    paths,
                    ErrorModel::SpawnFailed { platform: paths.platform, detail },
                ),
            },
            (ConnectStageModel::Grace(process), EventModel::Elapsed) => self.proceed(
                paths,
                ConnectStageModel::Polling,
                ActionModel::Poll(process),
            ),
            (ConnectStageModel::Polling, EventModel::Running(process)) => self.proceed(
                paths,
                ConnectStageModel::ProbingLive(process),
                ActionModel::Probe,
            ),
            (ConnectStageModel::Polling, EventModel::Exited { status }) => self.proceed(
                paths,
                ConnectStageModel::ProbingExited { status },
                ActionModel::Probe,
            ),
            (ConnectStageModel::Polling, EventModel::PollFailed { detail }) => self.fail(
                ErrorModel::LivenessUnknown { detail },
            ),
            (ConnectStageModel::ProbingLive(process), EventModel::Probed(outcome)) => if outcome.healthy() {
                self.succeed(Some(process))
            } else {
                self.proceed(paths, ConnectStageModel::Killing, ActionModel::Kill(process))
            },
            (ConnectStageModel::ProbingExited { status }, EventModel::Probed(outcome)) => if outcome.healthy() {
                self.succeed(None)
            } else {
                self.fail(ErrorModel::ProcessExitedNoConnectivity { status })
            },
            (ConnectStageModel::Killing, EventModel::KillDone { .. }) => self.fail(
                ErrorModel::NoConnectivityAfterLaunch,
            ),
            _ => self.reject(event),
        }
    }

    /// A disconnect: the signal, then the wait. Only a signal that could not
    /// be sent is a failure.
    pub open spec fn resume_disconnect(self, stage: DisconnectStage, event: EventModel<H>) -> (
        Self,
        ActionModel<H>,
    ) {
        match (stage, event) {
            (DisconnectStage::Terminating, EventModel::KillDone { process, failure }) => match failure {
                None => (
                    SessionModel {
                        state: self.state,
                        process: self.process,
                        pending: PendingModel::Disconnect(DisconnectStage::Reaping),
                    },
                    ActionModel::Reap(process),
                ),
                Some(detail) => (
                    SessionModel {
                        state: SessionState::Failed,
                        process: self.process,
                        pending: PendingModel::Nothing,
                    },
                    ActionModel::Finished(Err(ErrorModel::TerminationFailed { detail })),
                ),
            },
            (DisconnectStage::Reaping, EventModel::Reaped) => (
                SessionModel {
                    state: SessionState::Disconnected,
                    process: self.process,
                    pending: PendingModel::Nothing,
                },
                ActionModel::Finished(Ok(())),
            ),
            _ => self.reject(event),
        }
    }
}

impl<H> ConnectStageModel<H> {
    /// The stages that only an installation passes through.
    pub open spec fn installs(self) -> bool {
        self is Detection || self is InstallNotice || self is PackageCheck || self is ScriptCheck
            || self is InstallerRun || self is Settling || self is Recheck || self is InstallDoneLog
    }

    /// The stages from the first spawn on.
    pub open spec fn supervises(self) -> bool {
        self is Launching || self is Grace || self is Polling || self is ProbingLive
            || self is ProbingExited || self is Killing
    }
}

} // verus!
