use vpn_session::error::VpnError;
use vpn_session::manager::VpnManager;
use vpn_session::paths::{VpnFile, VpnPaths};
use vpn_session::platform::Platform;
use vpn_session::probe::ProbeOutcome;
use vpn_session::protocol::{Action, Event};
use vpn_session::session::SessionState;

fn paths() -> VpnPaths {
    VpnPaths::new(Platform::UnixLike, String::from("/srv/app"))
}

/// A manager that tracks the process `handle`.
fn connected(handle: u32) -> VpnManager<u32> {
    let mut manager: VpnManager<u32> = VpnManager::new();
    manager.connect(paths());
    manager.resume(Event::FileChecked { exists: true });
    manager.resume(Event::FileChecked { exists: true });
    manager.resume(Event::LogWritten);
    manager.resume(Event::LogWritten);
    manager.resume(Event::Spawned(handle));
    manager.resume(Event::Elapsed);
    manager.resume(Event::Running(handle));
    assert_eq!(
        manager.resume(Event::Probed(ProbeOutcome::Status(200))),
        Action::Finished(Ok(()))
    );
    manager
}

#[test]
fn disconnect_without_process_succeeds_and_asks_nothing() {
    let mut manager: VpnManager<u32> = VpnManager::new();
    assert_eq!(manager.disconnect(), Action::Finished(Ok(())));
    assert_eq!(manager.state(), SessionState::Disconnected);
    assert!(!manager.is_busy());
}

#[test]
fn disconnect_twice_is_disconnect_once() {
    let mut once: VpnManager<u32> = VpnManager::new();
    let mut twice: VpnManager<u32> = VpnManager::new();
    let first = once.disconnect();
    twice.disconnect();
    let second = twice.disconnect();
    assert_eq!(first, second);
    assert_eq!(once.state(), twice.state());
    assert_eq!(once.tracks_process(), twice.tracks_process());
    assert_eq!(once.is_busy(), twice.is_busy());
}

#[test]
fn disconnect_after_failed_attempt_returns_to_disconnected() {
    let mut manager: VpnManager<u32> = VpnManager::new();
    manager.connect(paths());
    manager.resume(Event::FileChecked { exists: false });
    assert_eq!(manager.state(), SessionState::Failed);
    assert_eq!(manager.disconnect(), Action::Finished(Ok(())));
    assert_eq!(manager.state(), SessionState::Disconnected);
}

#[test]
fn disconnect_signals_then_waits() {
    let mut manager = connected(17);
    assert_eq!(manager.disconnect(), Action::Kill(17));
    assert_eq!(manager.state(), SessionState::Disconnecting);
    assert!(!manager.is_connected());
    assert!(!manager.tracks_process());
    assert!(manager.is_busy());
    assert_eq!(manager.resume(Event::KillDone { process: 17, failure: None }), Action::Reap(17));
    assert_eq!(manager.state(), SessionState::Disconnecting);
    assert_eq!(manager.resume(Event::Reaped), Action::Finished(Ok(())));
    assert_eq!(manager.state(), SessionState::Disconnected);
    assert!(!manager.is_busy());
    assert_eq!(manager.disconnect(), Action::Finished(Ok(())));
}

#[test]
fn signal_failure_fails_the_disconnect() {
    let mut manager = connected(17);
    manager.disconnect();
    let answer = manager.resume(Event::KillDone {
        process: 17,
        failure: Some(String::from("Operation not permitted (os error 1)")),
    });
    let expected = VpnError::TerminationFailed {
        detail: String::from("Operation not permitted (os error 1)"),
    };
    assert_eq!(
        expected.message(),
        "Error terminando proceso VPN: Operation not permitted (os error 1)"
    );
    assert_eq!(answer, Action::Finished(Err(expected)));
    assert_eq!(manager.state(), SessionState::Failed);
    assert!(!manager.tracks_process());
    assert!(!manager.is_busy());
}

#[test]
fn connect_and_disconnect_wait_while_an_attempt_is_in_flight() {
    let mut manager: VpnManager<u32> = VpnManager::new();
    manager.connect(paths());
    manager.resume(Event::FileChecked { exists: true });
    assert_eq!(manager.connect(paths()), Action::Busy);
    assert_eq!(manager.disconnect(), Action::Busy);
    assert_eq!(manager.state(), SessionState::Connecting);
    assert_eq!(manager.resume(Event::FileChecked { exists: true }), Action::CreateSetupLog);
}

#[test]
fn connect_waits_while_a_disconnect_is_in_flight() {
    let mut manager = connected(5);
    assert_eq!(manager.disconnect(), Action::Kill(5));
    assert_eq!(manager.connect(paths()), Action::Busy);
    assert_eq!(manager.disconnect(), Action::Busy);
    assert_eq!(manager.resume(Event::KillDone { process: 5, failure: None }), Action::Reap(5));
}

#[test]
fn second_connect_starts_after_the_first_has_ended() {
    let mut manager: VpnManager<u32> = VpnManager::new();
    manager.connect(paths());
    assert_eq!(manager.connect(paths()), Action::Busy);
    manager.resume(Event::FileChecked { exists: false });
    assert_eq!(manager.state(), SessionState::Failed);
    assert_eq!(manager.connect(paths()), Action::CheckFile(VpnFile::Config));
    assert_eq!(manager.state(), SessionState::Connecting);
}

#[test]
fn resting_session_hands_events_back() {
    let mut manager: VpnManager<u32> = VpnManager::new();
    assert_eq!(manager.resume(Event::Spawned(8)), Action::Rejected(Event::Spawned(8)));
    assert_eq!(manager.resume(Event::Elapsed), Action::Rejected(Event::Elapsed));
    assert_eq!(manager.state(), SessionState::Disconnected);
    assert!(!manager.tracks_process());
}

#[test]
fn event_that_answers_nothing_asked_changes_nothing() {
    let mut manager: VpnManager<u32> = VpnManager::new();
    manager.connect(paths());
    assert_eq!(manager.resume(Event::LogWritten), Action::Rejected(Event::LogWritten));
    assert_eq!(
        manager.resume(Event::Probed(ProbeOutcome::Status(200))),
        Action::Rejected(Event::Probed(ProbeOutcome::Status(200)))
    );
    assert_eq!(
        manager.resume(Event::FileChecked { exists: true }),
        Action::CheckFile(VpnFile::Credentials)
    );
}

#[test]
fn grace_period_ends_only_when_the_sleep_ends() {
    let mut manager: VpnManager<u32> = VpnManager::new();
    manager.connect(paths());
    manager.resume(Event::FileChecked { exists: true });
    manager.resume(Event::FileChecked { exists: true });
    manager.resume(Event::LogWritten);
    manager.resume(Event::LogWritten);
    assert_eq!(manager.resume(Event::Spawned(2)), Action::Sleep { seconds: 10 });
    assert_eq!(manager.resume(Event::Running(2)), Action::Rejected(Event::Running(2)));
    assert_eq!(manager.resume(Event::Reaped), Action::Rejected(Event::Reaped));
    assert_eq!(manager.resume(Event::Elapsed), Action::Poll(2));
}

#[test]
fn tracked_process_survives_a_failed_further_attempt() {
    let mut manager = connected(30);
    assert_eq!(manager.connect(paths()), Action::CheckFile(VpnFile::Config));
    assert_eq!(manager.state(), SessionState::Connected);
    manager.resume(Event::FileChecked { exists: false });
    assert_eq!(manager.state(), SessionState::Connected);
    assert!(manager.tracks_process());
    assert_eq!(manager.disconnect(), Action::Kill(30));
}

#[test]
fn live_replacement_takes_the_place_of_the_tracked_process() {
    let mut manager = connected(30);
    manager.connect(paths());
    manager.resume(Event::FileChecked { exists: true });
    manager.resume(Event::FileChecked { exists: true });
    manager.resume(Event::LogWritten);
    manager.resume(Event::LogWritten);
    manager.resume(Event::Spawned(31));
    manager.resume(Event::Elapsed);
    manager.resume(Event::Running(31));
    assert_eq!(
        manager.resume(Event::Probed(ProbeOutcome::Status(200))),
        Action::Finished(Ok(()))
    );
    assert_eq!(manager.disconnect(), Action::Kill(31));
}

#[test]
fn no_installation_off_windows() {
    let mut manager: VpnManager<u32> = VpnManager::new();
    let mut answers = vec![manager.connect(paths())];
    let events = vec![
        Event::FileChecked { exists: true },
        Event::FileChecked { exists: true },
        Event::LogWritten,
        Event::InstallationChecked { installed: false },
        Event::LogWritten,
        Event::SpawnFailed { detail: String::from("a") },
        Event::SpawnFailed { detail: String::from("b") },
        Event::SpawnFailed { detail: String::from("c") },
        Event::LogWritten,
    ];
    for event in events {
        answers.push(manager.resume(event));
    }
    for answer in &answers {
        assert!(!matches!(answer, Action::RunInstaller | Action::CheckInstallation));
        assert!(!matches!(
            answer,
            Action::CheckFile(VpnFile::InstallerPackage | VpnFile::InstallScript)
        ));
    }
    assert!(matches!(
        answers.last(),
        Some(Action::Finished(Err(VpnError::SpawnFailed { platform: Platform::UnixLike, .. })))
    ));
}
