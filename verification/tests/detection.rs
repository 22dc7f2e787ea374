use vpn_session::detection::{
    after_probe, contains_bytes, first_probe, mentions_product, DetectionProbe, DetectionStep,
    Observation, ProbeRequest,
};
use vpn_session::launcher::Invocation;
use vpn_session::platform::Platform;

/// Runs a detection to its verdict; `seen` answers the probes in order.
/// Returns the verdict and the number of probes examined.
fn detect(platform: Platform, seen: Vec<Observation>) -> (bool, usize) {
    let mut probe = first_probe(platform);
    let mut examined = 0;
    for observation in &seen {
        examined += 1;
        match after_probe(probe, observation) {
            DetectionStep::Verdict(installed) => return (installed, examined),
            DetectionStep::Examine(next) => probe = next,
        }
    }
    panic!("the observations ran out before the verdict");
}

#[test]
fn first_install_path_decides() {
    let seen = vec![Observation::PathChecked { exists: true }];
    assert_eq!(detect(Platform::Windows, seen), (true, 1));
}

#[test]
fn second_install_path_decides() {
    let seen = vec![
        Observation::PathChecked { exists: false },
        Observation::PathChecked { exists: true },
    ];
    assert_eq!(detect(Platform::Windows, seen), (true, 2));
}

#[test]
fn registry_is_asked_last_and_its_exit_status_is_ignored() {
    let seen = vec![
        Observation::PathChecked { exists: false },
        Observation::PathChecked { exists: false },
        Observation::CommandRan {
            success: false,
            output: b"HKEY_LOCAL_MACHINE\\...\\OpenVPN\r\n    DisplayName    REG_SZ    OpenVPN 2.6"
                .to_vec(),
        },
    ];
    assert_eq!(detect(Platform::Windows, seen), (true, 3));
}

#[test]
fn nothing_found_on_windows() {
    let seen = vec![
        Observation::PathChecked { exists: false },
        Observation::PathChecked { exists: false },
        Observation::CommandRan { success: true, output: b"End of search: 0 match(es) found.".to_vec() },
    ];
    assert_eq!(detect(Platform::Windows, seen), (false, 3));
}

#[test]
fn registry_that_cannot_be_asked_finds_nothing() {
    let seen = vec![
        Observation::PathChecked { exists: false },
        Observation::PathChecked { exists: false },
        Observation::CommandFailed,
    ];
    assert_eq!(detect(Platform::Windows, seen), (false, 3));
}

#[test]
fn search_path_decides_on_unix() {
    let found = vec![Observation::CommandRan { success: true, output: b"/usr/sbin/openvpn\n".to_vec() }];
    assert_eq!(detect(Platform::UnixLike, found), (true, 1));
    let absent = vec![Observation::CommandRan { success: false, output: b"OpenVPN".to_vec() }];
    assert_eq!(detect(Platform::UnixLike, absent), (false, 1));
    assert_eq!(detect(Platform::UnixLike, vec![Observation::CommandFailed]), (false, 1));
}

#[test]
fn observation_of_the_wrong_kind_shows_nothing() {
    assert_eq!(
        after_probe(DetectionProbe::SearchPath, &Observation::PathChecked { exists: true }),
        DetectionStep::Verdict(false)
    );
    assert_eq!(
        after_probe(
            DetectionProbe::ProgramFiles,
            &Observation::CommandRan { success: true, output: b"OpenVPN".to_vec() }
        ),
        DetectionStep::Examine(DetectionProbe::ProgramFilesX86)
    );
}

#[test]
fn probe_requests() {
    assert_eq!(
        DetectionProbe::ProgramFiles.request(),
        ProbeRequest::PathExists(String::from("C:\\Program Files\\OpenVPN\\bin\\openvpn.exe"))
    );
    assert_eq!(
        DetectionProbe::ProgramFilesX86.request(),
        ProbeRequest::PathExists(String::from(
            "C:\\Program Files (x86)\\OpenVPN\\bin\\openvpn.exe"
        ))
    );
    assert_eq!(
        DetectionProbe::UninstallRegistry.request(),
        ProbeRequest::Run(Invocation {
            program: String::from("reg"),
            args: vec![
                String::from("query"),
                String::from("HKLM\\SOFTWARE\\Microsoft\\Windows\\CurrentVersion\\Uninstall"),
                String::from("/s"),
                String::from("/f"),
                String::from("OpenVPN"),
            ],
        })
    );
    assert_eq!(
        DetectionProbe::SearchPath.request(),
        ProbeRequest::Run(Invocation {
            program: String::from("which"),
            args: vec![String::from("openvpn")],
        })
    );
}

#[test]
fn byte_search() {
    assert!(contains_bytes(b"abcabd", b"abd"));
    assert!(contains_bytes(b"abcabd", b"abc"));
    assert!(contains_bytes(b"abcabd", b"d"));
    assert!(contains_bytes(b"abcabd", b""));
    assert!(contains_bytes(b"", b""));
    assert!(contains_bytes(b"abcabd", b"abcabd"));
    assert!(!contains_bytes(b"abcabd", b"abcabda"));
    assert!(!contains_bytes(b"abcabd", b"ac"));
    assert!(!contains_bytes(b"", b"a"));
    assert!(contains_bytes(b"aaab", b"aab"));
}

#[test]
fn product_name_is_matched_exactly() {
    assert!(mentions_product(b"OpenVPN"));
    assert!(mentions_product(b"xxOpenVPNyy"));
    assert!(mentions_product(&[0xff, 0xfe, b'O', b'p', b'e', b'n', b'V', b'P', b'N']));
    assert!(!mentions_product(b"openvpn"));
    assert!(!mentions_product(b"OpenVP"));
    assert!(!mentions_product(b"Open VPN"));
    assert!(!mentions_product(b""));
}
