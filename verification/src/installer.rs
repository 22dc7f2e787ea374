//! Installing the tunnel client: the elevated command that runs the install
//! script, and what its outcome means.

use crate::error::{InstallFailure, InstallFailureModel};
use crate::launcher::{push_text, texts, Invocation, InvocationModel};
use crate::paths::{PathsModel, VpnFile, VpnPaths};
use crate::platform::Platform;
use vstd::prelude::*;

verus! {

/// Seconds to let an installation settle before the client is looked for again.
pub const SETTLE_SECONDS: u64 = 5;

/// How a run of the install script ended.
#[derive(Debug, PartialEq, Eq)]
pub enum InstallerOutcome {
    /// The script could not be started.
    NotStarted { detail: String },
    /// The script ran; `errors` is what it wrote to its error stream.
    Exited { success: bool, errors: String },
}

/// What an [`InstallerOutcome`] stands for.
pub enum InstallerOutcomeModel {
    NotStarted { detail: Seq<char> },
    Exited { success: bool, errors: Seq<char> },
}

impl View for InstallerOutcome {
    type V = InstallerOutcomeModel;

    open spec fn view(&self) -> InstallerOutcomeModel {
        match self {
            InstallerOutcome::NotStarted { detail } => InstallerOutcomeModel::NotStarted {
                detail: detail@,
            },
            InstallerOutcome::Exited { success, errors } => InstallerOutcomeModel::Exited {
                success: *success,
                errors: errors@,
            },
        }
    }
}

impl InstallerOutcomeModel {
    /// The failure this outcome amounts to; none where the script reported
    /// success.
    pub open spec fn failure(self) -> Option<InstallFailureModel> {
        match self {
            InstallerOutcomeModel::NotStarted { detail } => Some(
                InstallFailureModel::NotStarted { detail },
            ),
            InstallerOutcomeModel::Exited { success, errors } => if success {
                None
            } else {
                Some(InstallFailureModel::ScriptFailed { output: errors })
            },
        }
    }
}

impl InstallerOutcome {
    pub fn into_failure(self) -> (failure: Option<InstallFailure>)
        ensures
            failure is Some == self@.failure() is Some,
            failure matches Some(f) ==> f@ == self@.failure().unwrap(),
    {
        match self {
            InstallerOutcome::NotStarted { detail } => Some(InstallFailure::NotStarted { detail }),
            InstallerOutcome::Exited { success, errors } => if success {
                None
            } else {
                Some(InstallFailure::ScriptFailed { output: errors })
            },
        }
    }
}

/// The command handed to the shell: start a second, elevated shell on the
/// script and wait for it.
pub open spec fn elevation_command(script: Seq<char>, app_dir: Seq<char>) -> Seq<char> {
    "Start-Process powershell.exe -ArgumentList \"-ExecutionPolicy Bypass -File '"@ + script
        + "' -AppDir '"@ + app_dir + "'\" -Verb RunAs -Wait"@
}

pub open spec fn installer_invocation_model(paths: PathsModel) -> InvocationModel {
    InvocationModel {
        program: "powershell.exe"@,
        args: seq![
            "-ExecutionPolicy"@,
            "Bypass"@,
            "-Command"@,
            elevation_command(paths.locate(VpnFile::InstallScript), paths.app_dir),
        ],
    }
}

/// The command line that runs the install script, elevated. An installation
/// made during a connect and one the user asked for by hand run the same
/// script, [`VpnFile::InstallScript`].
pub fn installer_invocation(paths: &VpnPaths) -> (command: Invocation)
    ensures
        command@ == installer_invocation_model(paths@),
{
    let elevated = String::from_str(
        "Start-Process powershell.exe -ArgumentList \"-ExecutionPolicy Bypass -File '",
    ).concat(paths.locate(VpnFile::InstallScript).as_str()).concat("' -AppDir '").concat(
        paths.app_dir.as_str(),
    ).concat("'\" -Verb RunAs -Wait");
    let mut args: Vec<String> = Vec::new();
    assert(texts(args@) =~= seq![]);
    push_text(&mut args, "-ExecutionPolicy");
    push_text(&mut args, "Bypass");
    push_text(&mut args, "-Command");
    push_text(&mut args, elevated.as_str());
    assert(texts(args@) =~= installer_invocation_model(paths@).args);
    Invocation { program: String::from_str("powershell.exe"), args }
}

/// What has happened so far in an installation the user asked for by hand.
#[derive(Debug, PartialEq, Eq)]
pub enum ManualInstallEvent {
    /// The user asked; nothing was done yet.
    Requested,
    /// The install script was looked for where the step before said.
    ScriptChecked { exists: bool },
    /// The install script was run.
    InstallerFinished(InstallerOutcome),
}

/// What to do next in an installation the user asked for by hand.
#[derive(Debug, PartialEq, Eq)]
pub enum ManualInstallStep {
    /// See whether this file exists.
    CheckFile(VpnFile),
    /// Run [`installer_invocation`].
    RunInstaller,
    /// Done: the confirmation, or the reason for failure.
    Finished(Result<String, String>),
}

/// What a [`ManualInstallEvent`] stands for.
pub enum ManualInstallEventModel {
    Requested,
    ScriptChecked { exists: bool },
    InstallerFinished(InstallerOutcomeModel),
}

/// What a [`ManualInstallStep`] stands for.
pub enum ManualInstallStepModel {
    CheckFile(VpnFile),
    RunInstaller,
    Finished(Result<Seq<char>, Seq<char>>),
}

impl View for ManualInstallEvent {
    type V = ManualInstallEventModel;

    open spec fn view(&self) -> ManualInstallEventModel {
        match self {
            ManualInstallEvent::Requested => ManualInstallEventModel::Requested,
            ManualInstallEvent::ScriptChecked { exists } => ManualInstallEventModel::ScriptChecked {
                exists: *exists,
            },
            ManualInstallEvent::InstallerFinished(outcome) =>
                ManualInstallEventModel::InstallerFinished(outcome@),
        }
    }
}

impl View for ManualInstallStep {
    type V = ManualInstallStepModel;

    open spec fn view(&self) -> ManualInstallStepModel {
        match self {
            ManualInstallStep::CheckFile(file) => ManualInstallStepModel::CheckFile(*file),
            ManualInstallStep::RunInstaller => ManualInstallStepModel::RunInstaller,
            ManualInstallStep::Finished(Ok(text)) => ManualInstallStepModel::Finished(Ok(text@)),
            ManualInstallStep::Finished(Err(text)) => ManualInstallStepModel::Finished(Err(text@)),
        }
    }
}

/// The next step of a manual installation. Off Windows it fails at once,
/// whatever has happened; on Windows the install script is looked for where
/// every installation has it, then run, and its outcome decides.
pub open spec fn manual_install_step(
    platform: Platform,
    event: ManualInstallEventModel,
) -> ManualInstallStepModel {
    if !platform.auto_installs() {
        ManualInstallStepModel::Finished(
            Err("Instalación automática de OpenVPN solo está disponible en Windows"@),
        )
    } else {
        match event {
            ManualInstallEventModel::Requested => ManualInstallStepModel::CheckFile(
                VpnFile::InstallScript,
            ),
            ManualInstallEventModel::ScriptChecked { exists } => if exists {
                ManualInstallStepModel::RunInstaller
            } else {
                ManualInstallStepModel::Finished(
                    Err(
                        "Script de instalación de OpenVPN no encontrado. Reinstale la aplicación."@,
                    ),
                )
            },
            ManualInstallEventModel::InstallerFinished(
                InstallerOutcomeModel::NotStarted { detail },
            ) => ManualInstallStepModel::Finished(Err("Error ejecutando PowerShell: "@ + detail)),
            ManualInstallEventModel::InstallerFinished(
                InstallerOutcomeModel::Exited { success, errors },
            ) => if success {
                ManualInstallStepModel::Finished(
                    Ok(
                        "OpenVPN instalado correctamente. Reinicie la aplicación para conectarse automáticamente."@,
                    ),
                )
            } else {
                ManualInstallStepModel::Finished(Err("Error instalando OpenVPN: "@ + errors))
            },
        }
    }
}

pub fn install_openvpn_command(platform: Platform, event: ManualInstallEvent) -> (step:
    ManualInstallStep)
    ensures
        step@ == manual_install_step(platform, event@),
{
    if !platform.supports_auto_install() {
        return ManualInstallStep::Finished(
            Err(
                String::from_str(
                    "Instalación automática de OpenVPN solo está disponible en Windows",
                ),
            ),
        );
    }
    match event {
        ManualInstallEvent::Requested => ManualInstallStep::CheckFile(VpnFile::InstallScript),
        ManualInstallEvent::ScriptChecked { exists } => if exists {
            ManualInstallStep::RunInstaller
        } else {
            ManualInstallStep::Finished(
                Err(
                    String::from_str(
                        "Script de instalación de OpenVPN no encontrado. Reinstale la aplicación.",
                    ),
                ),
            )
        },
        ManualInstallEvent::InstallerFinished(InstallerOutcome::NotStarted { detail }) =>
            ManualInstallStep::Finished(
                Err(String::from_str("Error ejecutando PowerShell: ").concat(detail.as_str())),
            ),
        ManualInstallEvent::InstallerFinished(InstallerOutcome::Exited { success, errors }) => if success {
            ManualInstallStep::Finished(
                Ok(
                    String::from_str(
                        "OpenVPN instalado correctamente. Reinicie la aplicación para conectarse automáticamente.",
                    ),
                ),
            )
        } else {
            ManualInstallStep::Finished(
                Err(String::from_str("Error instalando OpenVPN: ").concat(errors.as_str())),
            )
        },
    }
}

} // verus!
