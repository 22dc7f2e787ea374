use vpn_session::error::{InstallFailure, VpnError};
use vpn_session::installer::InstallerOutcome;
use vpn_session::launcher::LaunchStrategy;
use vpn_session::manager::VpnManager;
use vpn_session::paths::{VpnFile, VpnPaths};
use vpn_session::platform::Platform;
use vpn_session::probe::ProbeOutcome;
use vpn_session::protocol::{Action, Event};
use vpn_session::session::SessionState;
use vpn_session::setup_log::LogEntry;

fn unix_paths() -> VpnPaths {
    VpnPaths::new(Platform::UnixLike, String::from("/opt/tps"))
}

fn windows_paths() -> VpnPaths {
    VpnPaths::new(Platform::Windows, String::from("C:\\TPS"))
}

/// Drives a fresh attempt on a Unix-like platform up to the first spawn.
fn launched_on_unix(manager: &mut VpnManager<u32>) {
    assert_eq!(manager.connect(unix_paths()), Action::CheckFile(VpnFile::Config));
    assert_eq!(
        manager.resume(Event::FileChecked { exists: true }),
        Action::CheckFile(VpnFile::Credentials)
    );
    assert_eq!(manager.resume(Event::FileChecked { exists: true }), Action::CreateSetupLog);
    assert_eq!(
        manager.resume(Event::LogWritten),
        Action::AppendSetupLog(LogEntry::AlreadyInstalled)
    );
    assert_eq!(
        manager.resume(Event::LogWritten),
        Action::Spawn(LaunchStrategy::PrivilegedHelper)
    );
}

/// Drives a fresh attempt on Windows up to the look for the client.
fn detecting_on_windows(manager: &mut VpnManager<u32>) {
    assert_eq!(manager.connect(windows_paths()), Action::CheckFile(VpnFile::Config));
    assert_eq!(
        manager.resume(Event::FileChecked { exists: true }),
        Action::CheckFile(VpnFile::Credentials)
    );
    assert_eq!(manager.resume(Event::FileChecked { exists: true }), Action::CreateSetupLog);
    assert_eq!(manager.resume(Event::LogWritten), Action::CheckInstallation);
}

#[test]
fn new_session_is_disconnected_and_idle() {
    let manager: VpnManager<u32> = VpnManager::new();
    assert_eq!(manager.state(), SessionState::Disconnected);
    assert!(!manager.is_connected());
    assert!(!manager.tracks_process());
    assert!(!manager.is_busy());
}

#[test]
fn missing_config_fails_at_once() {
    let mut manager: VpnManager<u32> = VpnManager::new();
    assert_eq!(manager.connect(unix_paths()), Action::CheckFile(VpnFile::Config));
    assert_eq!(manager.state(), SessionState::Connecting);
    assert!(manager.is_busy());
    let answer = manager.resume(Event::FileChecked { exists: false });
    assert_eq!(
        answer,
        Action::Finished(Err(VpnError::ConfigMissing {
            path: String::from("/opt/tps/vpn/sslvpn-roger.leon-client-config.ovpn"),
        }))
    );
    assert_eq!(manager.state(), SessionState::Failed);
    assert!(!manager.is_connected());
    assert!(!manager.is_busy());
    assert!(!manager.tracks_process());
}

#[test]
fn missing_credentials_fails_before_any_log() {
    let mut manager: VpnManager<u32> = VpnManager::new();
    manager.connect(windows_paths());
    assert_eq!(
        manager.resume(Event::FileChecked { exists: true }),
        Action::CheckFile(VpnFile::Credentials)
    );
    let answer = manager.resume(Event::FileChecked { exists: false });
    assert_eq!(
        answer,
        Action::Finished(Err(VpnError::CredentialsMissing {
            path: String::from("C:\\TPS\\vpn\\vpnCredentials.txt"),
        }))
    );
    assert_eq!(manager.state(), SessionState::Failed);
}

#[test]
fn missing_install_script_fails_without_running_installer() {
    let mut manager: VpnManager<u32> = VpnManager::new();
    detecting_on_windows(&mut manager);
    assert_eq!(
        manager.resume(Event::InstallationChecked { installed: false }),
        Action::AppendSetupLog(LogEntry::InstallStarted)
    );
    assert_eq!(
        manager.resume(Event::LogWritten),
        Action::CheckFile(VpnFile::InstallerPackage)
    );
    assert_eq!(
        manager.resume(Event::FileChecked { exists: true }),
        Action::CheckFile(VpnFile::InstallScript)
    );
    let message =
        String::from("Script de instalación no encontrado: C:\\TPS\\resources\\install-openvpn.ps1");
    assert_eq!(
        manager.resume(Event::FileChecked { exists: false }),
        Action::AppendSetupLog(LogEntry::Failure { message: message.clone() })
    );
    let answer = manager.resume(Event::LogWritten);
    let expected = VpnError::InstallFailed(InstallFailure::ScriptMissing {
        path: String::from("C:\\TPS\\resources\\install-openvpn.ps1"),
    });
    assert_eq!(expected.message(), message);
    assert_eq!(answer, Action::Finished(Err(expected)));
    assert_eq!(manager.state(), SessionState::Failed);
    assert!(!manager.is_busy());
}

#[test]
fn missing_installer_package_is_reported() {
    let mut manager: VpnManager<u32> = VpnManager::new();
    detecting_on_windows(&mut manager);
    manager.resume(Event::InstallationChecked { installed: false });
    manager.resume(Event::LogWritten);
    let message = String::from(
        "Instalador de OpenVPN no encontrado: C:\\TPS\\resources\\openvpn-install.msi",
    );
    assert_eq!(
        manager.resume(Event::FileChecked { exists: false }),
        Action::AppendSetupLog(LogEntry::Failure { message })
    );
    assert_eq!(
        manager.resume(Event::LogWritten),
        Action::Finished(Err(VpnError::InstallFailed(InstallFailure::PackageMissing {
            path: String::from("C:\\TPS\\resources\\openvpn-install.msi"),
        })))
    );
}

#[test]
fn live_process_with_reachable_endpoint_connects() {
    let mut manager: VpnManager<u32> = VpnManager::new();
    launched_on_unix(&mut manager);
    assert_eq!(manager.resume(Event::Spawned(41)), Action::Sleep { seconds: 10 });
    assert_eq!(manager.resume(Event::Elapsed), Action::Poll(41));
    assert_eq!(manager.resume(Event::Running(41)), Action::Probe);
    assert!(!manager.is_connected());
    assert_eq!(
        manager.resume(Event::Probed(ProbeOutcome::Status(200))),
        Action::Finished(Ok(()))
    );
    assert_eq!(manager.state(), SessionState::Connected);
    assert!(manager.is_connected());
    assert!(manager.tracks_process());
    assert!(!manager.is_busy());
    assert_eq!(manager.disconnect(), Action::Kill(41));
}

#[test]
fn exited_process_with_reachable_endpoint_connects_unsupervised() {
    let mut manager: VpnManager<u32> = VpnManager::new();
    launched_on_unix(&mut manager);
    manager.resume(Event::Spawned(41));
    manager.resume(Event::Elapsed);
    assert_eq!(
        manager.resume(Event::Exited { status: String::from("exit status: 1") }),
        Action::Probe
    );
    assert_eq!(
        manager.resume(Event::Probed(ProbeOutcome::Status(404))),
        Action::Finished(Ok(()))
    );
    assert_eq!(manager.state(), SessionState::Connected);
    assert!(manager.is_connected());
    assert!(!manager.tracks_process());
    assert_eq!(manager.disconnect(), Action::Finished(Ok(())));
    assert_eq!(manager.state(), SessionState::Disconnected);
}

#[test]
fn exited_process_without_connectivity_reports_status() {
    let mut manager: VpnManager<u32> = VpnManager::new();
    launched_on_unix(&mut manager);
    manager.resume(Event::Spawned(41));
    manager.resume(Event::Elapsed);
    manager.resume(Event::Exited { status: String::from("exit status: 1") });
    let answer = manager.resume(Event::Probed(ProbeOutcome::Status(500)));
    let expected = VpnError::ProcessExitedNoConnectivity { status: String::from("exit status: 1") };
    assert_eq!(
        expected.message(),
        "OpenVPN terminó y no hay conectividad. Código: exit status: 1. Revisar logs en vpn.log"
    );
    assert_eq!(answer, Action::Finished(Err(expected)));
    assert_eq!(manager.state(), SessionState::Failed);
    assert!(!manager.tracks_process());
}

#[test]
fn live_process_without_connectivity_is_killed() {
    let mut manager: VpnManager<u32> = VpnManager::new();
    launched_on_unix(&mut manager);
    manager.resume(Event::Spawned(41));
    manager.resume(Event::Elapsed);
    manager.resume(Event::Running(41));
    assert_eq!(manager.resume(Event::Probed(ProbeOutcome::Unreachable)), Action::Kill(41));
    let answer = manager.resume(Event::KillDone {
        process: 41,
        failure: Some(String::from("no such process")),
    });
    assert_eq!(answer, Action::Finished(Err(VpnError::NoConnectivityAfterLaunch)));
    assert_eq!(manager.state(), SessionState::Failed);
    assert!(!manager.is_connected());
    assert!(!manager.tracks_process());
    assert_eq!(manager.disconnect(), Action::Finished(Ok(())));
}

#[test]
fn third_strategy_handle_is_the_one_tracked() {
    let mut manager: VpnManager<u32> = VpnManager::new();
    launched_on_unix(&mut manager);
    assert_eq!(
        manager.resume(Event::SpawnFailed { detail: String::from("pkexec: not found") }),
        Action::Spawn(LaunchStrategy::SudoNonInteractive)
    );
    assert_eq!(
        manager.resume(Event::SpawnFailed { detail: String::from("sudo: not found") }),
        Action::Spawn(LaunchStrategy::Unprivileged)
    );
    assert_eq!(manager.resume(Event::Spawned(3)), Action::Sleep { seconds: 10 });
    assert_eq!(manager.resume(Event::Elapsed), Action::Poll(3));
    assert_eq!(manager.resume(Event::Running(3)), Action::Probe);
    assert_eq!(
        manager.resume(Event::Probed(ProbeOutcome::Status(204))),
        Action::Finished(Ok(()))
    );
    assert!(manager.tracks_process());
    assert_eq!(manager.disconnect(), Action::Kill(3));
}

#[test]
fn first_successful_spawn_ends_the_fallback() {
    let mut manager: VpnManager<u32> = VpnManager::new();
    launched_on_unix(&mut manager);
    assert_eq!(manager.resume(Event::Spawned(1)), Action::Sleep { seconds: 10 });
    let late = Event::SpawnFailed { detail: String::from("late") };
    assert_eq!(
        manager.resume(Event::SpawnFailed { detail: String::from("late") }),
        Action::Rejected(late)
    );
    assert_eq!(manager.resume(Event::Spawned(2)), Action::Rejected(Event::Spawned(2)));
    assert_eq!(manager.resume(Event::Elapsed), Action::Poll(1));
}

#[test]
fn exhausted_strategies_report_spawn_failure_on_unix() {
    let mut manager: VpnManager<u32> = VpnManager::new();
    launched_on_unix(&mut manager);
    manager.resume(Event::SpawnFailed { detail: String::from("a") });
    manager.resume(Event::SpawnFailed { detail: String::from("b") });
    let message = String::from(
        "Error ejecutando OpenVPN: No such file or directory (os error 2). Necesitas configurar permisos elevados. Ver SETUP_VPN.md",
    );
    assert_eq!(
        manager.resume(Event::SpawnFailed {
            detail: String::from("No such file or directory (os error 2)"),
        }),
        Action::AppendSetupLog(LogEntry::Failure { message })
    );
    assert_eq!(
        manager.resume(Event::LogWritten),
        Action::Finished(Err(VpnError::SpawnFailed {
            platform: Platform::UnixLike,
            detail: String::from("No such file or directory (os error 2)"),
        }))
    );
    assert_eq!(manager.state(), SessionState::Failed);
}

#[test]
fn windows_has_a_single_strategy() {
    let mut manager: VpnManager<u32> = VpnManager::new();
    detecting_on_windows(&mut manager);
    assert_eq!(
        manager.resume(Event::InstallationChecked { installed: true }),
        Action::AppendSetupLog(LogEntry::AlreadyInstalled)
    );
    assert_eq!(manager.resume(Event::LogWritten), Action::Spawn(LaunchStrategy::Direct));
    let answer = manager.resume(Event::SpawnFailed { detail: String::from("denied") });
    let expected = VpnError::SpawnFailed { platform: Platform::Windows, detail: String::from("denied") };
    assert_eq!(answer, Action::AppendSetupLog(LogEntry::Failure { message: expected.message() }));
    assert_eq!(manager.resume(Event::LogWritten), Action::Finished(Err(expected)));
}

#[test]
fn successful_installation_leads_to_launch() {
    let mut manager: VpnManager<u32> = VpnManager::new();
    detecting_on_windows(&mut manager);
    manager.resume(Event::InstallationChecked { installed: false });
    manager.resume(Event::LogWritten);
    manager.resume(Event::FileChecked { exists: true });
    assert_eq!(manager.resume(Event::FileChecked { exists: true }), Action::RunInstaller);
    assert_eq!(
        manager.resume(Event::InstallerFinished(InstallerOutcome::Exited {
            success: true,
            errors: String::new(),
        })),
        Action::Sleep { seconds: 5 }
    );
    assert_eq!(manager.resume(Event::Elapsed), Action::CheckInstallation);
    assert_eq!(
        manager.resume(Event::InstallationChecked { installed: true }),
        Action::AppendSetupLog(LogEntry::InstallCompleted)
    );
    assert_eq!(manager.resume(Event::LogWritten), Action::Spawn(LaunchStrategy::Direct));
}

#[test]
fn installation_that_leaves_client_absent_fails() {
    let mut manager: VpnManager<u32> = VpnManager::new();
    detecting_on_windows(&mut manager);
    manager.resume(Event::InstallationChecked { installed: false });
    manager.resume(Event::LogWritten);
    manager.resume(Event::FileChecked { exists: true });
    manager.resume(Event::FileChecked { exists: true });
    manager.resume(Event::InstallerFinished(InstallerOutcome::Exited {
        success: true,
        errors: String::new(),
    }));
    manager.resume(Event::Elapsed);
    let message = String::from(
        "OpenVPN no se instaló correctamente. Por favor, ejecute la aplicación como administrador.",
    );
    assert_eq!(
        manager.resume(Event::InstallationChecked { installed: false }),
        Action::AppendSetupLog(LogEntry::Failure { message })
    );
    assert_eq!(
        manager.resume(Event::LogWritten),
        Action::Finished(Err(VpnError::InstallationMissing))
    );
}

#[test]
fn failed_install_script_is_reported_with_its_errors() {
    let mut manager: VpnManager<u32> = VpnManager::new();
    detecting_on_windows(&mut manager);
    manager.resume(Event::InstallationChecked { installed: false });
    manager.resume(Event::LogWritten);
    manager.resume(Event::FileChecked { exists: true });
    manager.resume(Event::FileChecked { exists: true });
    let answer = manager.resume(Event::InstallerFinished(InstallerOutcome::Exited {
        success: false,
        errors: String::from("acceso denegado"),
    }));
    assert_eq!(
        answer,
        Action::AppendSetupLog(LogEntry::Failure {
            message: String::from("Error en la instalación de OpenVPN: acceso denegado"),
        })
    );
    assert_eq!(
        manager.resume(Event::LogWritten),
        Action::Finished(Err(VpnError::InstallFailed(InstallFailure::ScriptFailed {
            output: String::from("acceso denegado"),
        })))
    );
}

#[test]
fn install_script_that_cannot_start_is_reported() {
    let mut manager: VpnManager<u32> = VpnManager::new();
    detecting_on_windows(&mut manager);
    manager.resume(Event::InstallationChecked { installed: false });
    manager.resume(Event::LogWritten);
    manager.resume(Event::FileChecked { exists: true });
    manager.resume(Event::FileChecked { exists: true });
    manager.resume(Event::InstallerFinished(InstallerOutcome::NotStarted {
        detail: String::from("not found"),
    }));
    assert_eq!(
        manager.resume(Event::LogWritten),
        Action::Finished(Err(VpnError::InstallFailed(InstallFailure::NotStarted {
            detail: String::from("not found"),
        })))
    );
}

#[test]
fn poll_failure_ends_the_attempt() {
    let mut manager: VpnManager<u32> = VpnManager::new();
    launched_on_unix(&mut manager);
    manager.resume(Event::Spawned(9));
    manager.resume(Event::Elapsed);
    let answer = manager.resume(Event::PollFailed { detail: String::from("EPERM") });
    let expected = VpnError::LivenessUnknown { detail: String::from("EPERM") };
    assert_eq!(expected.message(), "Error verificando estado de OpenVPN: EPERM");
    assert_eq!(answer, Action::Finished(Err(expected)));
    assert_eq!(manager.state(), SessionState::Failed);
}
