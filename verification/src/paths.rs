//! Where the session's files live, relative to the application's directory.

use crate::platform::Platform;
use vstd::prelude::*;

verus! {

/// A file the session reads, writes or hands to the tunnel client.
#[derive(Clone, Copy, Debug, PartialEq, Eq, Structural)]
pub enum VpnFile {
    /// The tunnel configuration.
    Config,
    /// The user's credentials for the tunnel.
    Credentials,
    /// The log the tunnel client writes.
    ClientLog,
    /// The file in which the tunnel client records its process id.
    PidFile,
    /// The diagnostic log the session itself keeps.
    SetupLog,
    /// The installer package of the tunnel client.
    InstallerPackage,
    /// The script that runs the installer package.
    InstallScript,
}

impl VpnFile {
    /// The folder below the application's directory that holds the file, if any.
    pub open spec fn folder_text(self) -> Option<Seq<char>> {
        match self {
            VpnFile::Config | VpnFile::Credentials => Some("vpn"@),
            VpnFile::InstallerPackage | VpnFile::InstallScript => Some("resources"@),
            VpnFile::ClientLog | VpnFile::PidFile | VpnFile::SetupLog => None,
        }
    }

    /// The file's own name.
    pub open spec fn name_text(self) -> Seq<char> {
        match self {
            VpnFile::Config => "sslvpn-roger.leon-client-config.ovpn"@,
            VpnFile::Credentials => "vpnCredentials.txt"@,
            VpnFile::ClientLog => "vpn.log"@,
            VpnFile::PidFile => "vpn.pid"@,
            VpnFile::SetupLog => "vpn-setup.log"@,
            VpnFile::InstallerPackage => "openvpn-install.msi"@,
            VpnFile::InstallScript => "install-openvpn.ps1"@,
        }
    }

    pub fn folder(&self) -> (folder: Option<&'static str>)
        ensures
            folder is Some == self.folder_text() is Some,
            folder matches Some(text) ==> text@ == self.folder_text().unwrap(),
    {
        match self {
            VpnFile::Config | VpnFile::Credentials => Some("vpn"),
            VpnFile::InstallerPackage | VpnFile::InstallScript => Some("resources"),
            VpnFile::ClientLog | VpnFile::PidFile | VpnFile::SetupLog => None,
        }
    }

    pub fn name(&self) -> (name: &'static str)
        ensures
            name@ == self.name_text(),
    {
        match self {
            VpnFile::Config => "sslvpn-roger.leon-client-config.ovpn",
            VpnFile::Credentials => "vpnCredentials.txt",
            VpnFile::ClientLog => "vpn.log",
            VpnFile::PidFile => "vpn.pid",
            VpnFile::SetupLog => "vpn-setup.log",
            VpnFile::InstallerPackage => "openvpn-install.msi",
            VpnFile::InstallScript => "install-openvpn.ps1",
        }
    }
}

/// `part` placed below `base`: an empty base gives `part` alone, a base that
/// already ends in a separator takes no second one.
pub open spec fn joined(platform: Platform, base: Seq<char>, part: Seq<char>) -> Seq<char> {
    if base.len() == 0 {
        part
    } else if platform.separates(base.last()) {
        base + part
    } else {
        base + platform.separator_text() + part
    }
}

pub fn join(platform: Platform, base: &str, part: &str) -> (path: String)
    ensures
        path@ == joined(platform, base@, part@),
{
    let length: usize = base.unicode_len();
    if length == 0 {
        String::from_str(part)
    } else if platform.is_separator(base.get_char(length - 1)) {
        String::from_str(base).concat(part)
    } else {
        String::from_str(base).concat(platform.separator()).concat(part)
    }
}

/// The application's directory on a given platform: all that is needed to
/// find every [`VpnFile`].
#[derive(Debug, PartialEq, Eq)]
pub struct VpnPaths {
    pub platform: Platform,
    pub app_dir: String,
}

/// What a [`VpnPaths`] stands for.
pub struct PathsModel {
    pub platform: Platform,
    pub app_dir: Seq<char>,
}

impl PathsModel {
    /// The full path of `file`.
    pub open spec fn locate(self, file: VpnFile) -> Seq<char> {
        match file.folder_text() {
            Some(folder) => joined(
                self.platform,
                joined(self.platform, self.app_dir, folder),
                file.name_text(),
            ),
            None => joined(self.platform, self.app_dir, file.name_text()),
        }
    }
}

impl View for VpnPaths {
    type V = PathsModel;

    open spec fn view(&self) -> PathsModel {
        PathsModel { platform: self.platform, app_dir: self.app_dir@ }
    }
}

impl VpnPaths {
    pub fn new(platform: Platform, app_dir: String) -> (paths: VpnPaths)
        ensures
            paths@ == (PathsModel { platform, app_dir: app_dir@ }),
    {
        VpnPaths { platform, app_dir }
    }

    pub fn locate(&self, file: VpnFile) -> (path: String)
        ensures
            path@ == self@.locate(file),
    {
        match file.folder() {
            Some(folder) => {
                let below = join(self.platform, self.app_dir.as_str(), folder);
                join(self.platform, below.as_str(), file.name())
            },
            None => join(self.platform, self.app_dir.as_str(), file.name()),
        }
    }

    /// A second value with the same platform and directory.
    pub fn duplicate(&self) -> (copy: VpnPaths)
        ensures
            copy@ == self@,
    {
        VpnPaths { platform: self.platform, app_dir: self.app_dir.clone() }
    }
}

} // verus!
