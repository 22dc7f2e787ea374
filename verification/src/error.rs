//! The closed set of failures a session reports, and the text shown for each.

use crate::platform::Platform;
use vstd::prelude::*;

verus! {

/// Why an installation of the tunnel client did not go through.
#[derive(Debug, PartialEq, Eq)]
pub enum InstallFailure {
    /// The installer package is not where it should be.
    PackageMissing { path: String },
    /// The install script is not where it should be.
    ScriptMissing { path: String },
    /// The install script could not be started.
    NotStarted { detail: String },
    /// The install script ran and reported failure.
    ScriptFailed { output: String },
}

/// What went wrong in a connect or a disconnect.
#[derive(Debug, PartialEq, Eq)]
pub enum VpnError {
    /// The driver could not tell where the application lies, so no attempt
    /// was begun. `detail` is the reason, where one was given.
    AppDirectoryUnknown { reason: Option<String> },
    /// The tunnel configuration is absent.
    ConfigMissing { path: String },
    /// The credentials file is absent.
    CredentialsMissing { path: String },
    /// The tunnel client was absent and could not be installed.
    InstallFailed(InstallFailure),
    /// The install script reported success, yet the tunnel client is still absent.
    InstallationMissing,
    /// Every way of launching the tunnel client failed to start a process.
    SpawnFailed { platform: Platform, detail: String },
    /// The tunnel client exited and the health endpoint cannot be reached.
    ProcessExitedNoConnectivity { status: String },
    /// The tunnel client runs, but the health endpoint cannot be reached.
    NoConnectivityAfterLaunch,
    /// Whether the tunnel client still runs could not be found out.
    LivenessUnknown { detail: String },
    /// The tracked process could not be signalled.
    TerminationFailed { detail: String },
    /// The session has an operation in flight and took no other.
    Busy,
}

/// What an [`InstallFailure`] stands for.
pub enum InstallFailureModel {
    PackageMissing { path: Seq<char> },
    ScriptMissing { path: Seq<char> },
    NotStarted { detail: Seq<char> },
    ScriptFailed { output: Seq<char> },
}

/// What a [`VpnError`] stands for.
pub enum ErrorModel {
    AppDirectoryUnknown { reason: Option<Seq<char>> },
    ConfigMissing { path: Seq<char> },
    CredentialsMissing { path: Seq<char> },
    InstallFailed(InstallFailureModel),
    InstallationMissing,
    SpawnFailed { platform: Platform, detail: Seq<char> },
    ProcessExitedNoConnectivity { status: Seq<char> },
    NoConnectivityAfterLaunch,
    LivenessUnknown { detail: Seq<char> },
    TerminationFailed { detail: Seq<char> },
    Busy,
}

impl InstallFailureModel {
    pub open spec fn message(self) -> Seq<char> {
        match self {
            InstallFailureModel::PackageMissing { path } => "Instalador de OpenVPN no encontrado: "@
                + path,
            InstallFailureModel::ScriptMissing { path } => "Script de instalación no encontrado: "@
                + path,
            InstallFailureModel::NotStarted { detail } =>
                "Error ejecutando script de instalación: "@ + detail,
            InstallFailureModel::ScriptFailed { output } => "Error en la instalación de OpenVPN: "@
                + output,
        }
    }
}

impl ErrorModel {
    /// The text shown to the user.
    pub open spec fn message(self) -> Seq<char> {
        match self {
            ErrorModel::AppDirectoryUnknown { reason: Some(text) } =>
                "Error obteniendo directorio de app: "@ + text,
            ErrorModel::AppDirectoryUnknown { reason: None } =>
                "No se pudo obtener el directorio padre"@,
            ErrorModel::ConfigMissing { path } => "Archivo de configuración VPN no encontrado: "@
                + path,
            ErrorModel::CredentialsMissing { path } =>
                "Archivo de credenciales VPN no encontrado: "@ + path,
            ErrorModel::InstallFailed(failure) => failure.message(),
            ErrorModel::InstallationMissing =>
                "OpenVPN no se instaló correctamente. Por favor, ejecute la aplicación como administrador."@,
            ErrorModel::SpawnFailed { platform: Platform::Windows, detail } =>
                "Error ejecutando OpenVPN en Windows: "@ + detail
                    + ". \n\nSOLUCIÓN:\n1. Verificar que OpenVPN esté instalado\n2. Ejecutar TPS Intermotors como ADMINISTRADOR\n3. Click derecho en TPS Intermotors → 'Ejecutar como administrador'"@,
            ErrorModel::SpawnFailed { platform: Platform::UnixLike, detail } =>
                "Error ejecutando OpenVPN: "@ + detail
                    + ". Necesitas configurar permisos elevados. Ver SETUP_VPN.md"@,
            ErrorModel::ProcessExitedNoConnectivity { status } =>
                "OpenVPN terminó y no hay conectividad. Código: "@ + status
                    + ". Revisar logs en vpn.log"@,
            ErrorModel::NoConnectivityAfterLaunch =>
                "VPN iniciada pero no hay conectividad con el servidor. Revisar credenciales y configuración."@,
            ErrorModel::LivenessUnknown { detail } => "Error verificando estado de OpenVPN: "@
                + detail,
            ErrorModel::TerminationFailed { detail } => "Error terminando proceso VPN: "@ + detail,
            ErrorModel::Busy => "Hay otra operación de VPN en curso"@,
        }
    }
}

impl View for InstallFailure {
    type V = InstallFailureModel;

    open spec fn view(&self) -> InstallFailureModel {
        match self {
            InstallFailure::PackageMissing { path } => InstallFailureModel::PackageMissing {
                path: path@,
            },
            InstallFailure::ScriptMissing { path } => InstallFailureModel::ScriptMissing {
                path: path@,
            },
            InstallFailure::NotStarted { detail } => InstallFailureModel::NotStarted {
                detail: detail@,
            },
            InstallFailure::ScriptFailed { output } => InstallFailureModel::ScriptFailed {
                output: output@,
            },
        }
    }
}

impl View for VpnError {
    type V = ErrorModel;

    open spec fn view(&self) -> ErrorModel {
        match self {
            VpnError::AppDirectoryUnknown { reason } => ErrorModel::AppDirectoryUnknown {
                reason: match reason {
                    Some(text) => Some(text@),
                    None => None,
                },
            },
            VpnError::ConfigMissing { path } => ErrorModel::ConfigMissing { path: path@ },
            VpnError::CredentialsMissing { path } => ErrorModel::CredentialsMissing { path: path@ },
            VpnError::InstallFailed(failure) => ErrorModel::InstallFailed(failure@),
            VpnError::InstallationMissing => ErrorModel::InstallationMissing,
            VpnError::SpawnFailed { platform, detail } => ErrorModel::SpawnFailed {
                platform: *platform,
                detail: detail@,
            },
            VpnError::ProcessExitedNoConnectivity { status } =>
                ErrorModel::ProcessExitedNoConnectivity { status: status@ },
            VpnError::NoConnectivityAfterLaunch => ErrorModel::NoConnectivityAfterLaunch,
            VpnError::LivenessUnknown { detail } => ErrorModel::LivenessUnknown { detail: detail@ },
            VpnError::TerminationFailed { detail } => ErrorModel::TerminationFailed {
                detail: detail@,
            },
            VpnError::Busy => ErrorModel::Busy,
        }
    }
}

impl InstallFailure {
    pub fn message(&self) -> (text: String)
        ensures
            text@ == self@.message(),
    {
        match self {
            InstallFailure::PackageMissing { path } => String::from_str(
                "Instalador de OpenVPN no encontrado: ",
            ).concat(path.as_str()),
            InstallFailure::ScriptMissing { path } => String::from_str(
                "Script de instalación no encontrado: ",
            ).concat(path.as_str()),
            InstallFailure::NotStarted { detail } => String::from_str(
                "Error ejecutando script de instalación: ",
            ).concat(detail.as_str()),
            InstallFailure::ScriptFailed { output } => String::from_str(
                "Error en la instalación de OpenVPN: ",
            ).concat(output.as_str()),
        }
    }
}

impl VpnError {
    /// The text shown to the user.
    pub fn message(&self) -> (text: String)
        ensures
            text@ == self@.message(),
    {
        match self {
            VpnError::AppDirectoryUnknown { reason: Some(text) } => String::from_str(
                "Error obteniendo directorio de app: ",
            ).concat(text.as_str()),
            VpnError::AppDirectoryUnknown { reason: None } => String::from_str(
                "No se pudo obtener el directorio padre",
            ),
            VpnError::ConfigMissing { path } => String::from_str(
                "Archivo de configuración VPN no encontrado: ",
            ).concat(path.as_str()),
            VpnError::CredentialsMissing { path } => String::from_str(
                "Archivo de credenciales VPN no encontrado: ",
            ).concat(path.as_str()),
            VpnError::InstallFailed(failure) => failure.message(),
            VpnError::InstallationMissing => String::from_str(
                "OpenVPN no se instaló correctamente. Por favor, ejecute la aplicación como administrador.",
            ),
            VpnError::SpawnFailed { platform, detail } => match platform {
                Platform::Windows => String::from_str("Error ejecutando OpenVPN en Windows: ").concat(
                    detail.as_str(),
                ).concat(
                    ". \n\nSOLUCIÓN:\n1. Verificar que OpenVPN esté instalado\n2. Ejecutar TPS Intermotors como ADMINISTRADOR\n3. Click derecho en TPS Intermotors → 'Ejecutar como administrador'",
                ),
                Platform::UnixLike => String::from_str("Error ejecutando OpenVPN: ").concat(
                    detail.as_str(),
                ).concat(". Necesitas configurar permisos elevados. Ver SETUP_VPN.md"),
            },
            VpnError::ProcessExitedNoConnectivity { status } => String::from_str(
                "OpenVPN terminó y no hay conectividad. Código: ",
            ).concat(status.as_str()).concat(". Revisar logs en vpn.log"),
            VpnError::NoConnectivityAfterLaunch => String::from_str(
                "VPN iniciada pero no hay conectividad con el servidor. Revisar credenciales y configuración.",
            ),
            VpnError::LivenessUnknown { detail } => String::from_str(
                "Error verificando estado de OpenVPN: ",
            ).concat(detail.as_str()),
            VpnError::TerminationFailed { detail } => String::from_str(
                "Error terminando proceso VPN: ",
            ).concat(detail.as_str()),
            VpnError::Busy => String::from_str("Hay otra operación de VPN en curso"),
        }
    }
}

} // verus!
