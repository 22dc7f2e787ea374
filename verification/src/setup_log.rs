//! The diagnostic log a session keeps of its own steps: what each entry
//! says, and the moment it bears.

use crate::paths::{PathsModel, VpnFile, VpnPaths};
use vstd::prelude::*;

verus! {

// What chrono writes for the moment `seconds` after the beginning of 1970,
// in UTC and to the second, with the pattern `%Y-%m-%d %H:%M:%S UTC`; none
// where chrono has no such moment.
pub uninterp spec fn utc_stamp(seconds: i64) -> Option<Seq<char>>;

/// The stamp of the moment `seconds` after the beginning of 1970. A moment
/// too far off to be written leaves the stamp empty.
pub open spec fn stamp_text(seconds: i64) -> Seq<char> {
    match utc_stamp(seconds) {
        Some(text) => text,
        None => Seq::empty(),
    }
}

/// An entry appended to the setup log.
#[derive(Debug, PartialEq, Eq)]
pub enum LogEntry {
    /// The tunnel client is absent and is about to be installed.
    InstallStarted,
    /// The tunnel client was installed and found afterwards.
    InstallCompleted,
    /// Nothing to install.
    AlreadyInstalled,
    /// An installation or a launch failed; `message` is the error's text.
    Failure { message: String },
}

/// What a [`LogEntry`] stands for.
pub enum LogEntryModel {
    InstallStarted,
    InstallCompleted,
    AlreadyInstalled,
    Failure { message: Seq<char> },
}

impl View for LogEntry {
    type V = LogEntryModel;

    open spec fn view(&self) -> LogEntryModel {
        match self {
            LogEntry::InstallStarted => LogEntryModel::InstallStarted,
            LogEntry::InstallCompleted => LogEntryModel::InstallCompleted,
            LogEntry::AlreadyInstalled => LogEntryModel::AlreadyInstalled,
            LogEntry::Failure { message } => LogEntryModel::Failure { message: message@ },
        }
    }
}

impl LogEntryModel {
    /// The heading that opens a new part of the log; empty for an entry that
    /// goes on with the part before it.
    pub open spec fn heading(self) -> Seq<char> {
        match self {
            LogEntryModel::InstallStarted => "\n=== INSTALACIÓN AUTOMÁTICA DE OPENVPN ===\n"@,
            LogEntryModel::AlreadyInstalled => "\n=== VERIFICACIÓN OPENVPN ===\n"@,
            LogEntryModel::InstallCompleted | LogEntryModel::Failure { .. } => ""@,
        }
    }

    /// What the entry reports, as one line.
    pub open spec fn line(self) -> Seq<char> {
        match self {
            LogEntryModel::InstallStarted =>
                "Estado: OpenVPN no detectado, iniciando instalación...\n"@,
            LogEntryModel::InstallCompleted => "Estado: Instalación completada exitosamente\n"@,
            LogEntryModel::AlreadyInstalled => "Estado: OpenVPN ya está instalado\n"@,
            LogEntryModel::Failure { message } => "Error: "@ + message + "\n"@,
        }
    }

    /// The lines the entry adds to the log: its heading, then its line behind
    /// the stamp of the moment, in square brackets.
    pub open spec fn text_at(self, stamp: Seq<char>) -> Seq<char> {
        self.heading() + "["@ + stamp + "] "@ + self.line()
    }
}

impl LogEntry {
    fn heading(&self) -> (text: &'static str)
        ensures
            text@ == self@.heading(),
    {
        match self {
            LogEntry::InstallStarted => "\n=== INSTALACIÓN AUTOMÁTICA DE OPENVPN ===\n",
            LogEntry::AlreadyInstalled => "\n=== VERIFICACIÓN OPENVPN ===\n",
            LogEntry::InstallCompleted | LogEntry::Failure { .. } => "",
        }
    }

    fn line(&self) -> (text: String)
        ensures
            text@ == self@.line(),
    {
        match self {
            LogEntry::InstallStarted => String::from_str(
                "Estado: OpenVPN no detectado, iniciando instalación...\n",
            ),
            LogEntry::InstallCompleted => String::from_str(
                "Estado: Instalación completada exitosamente\n",
            ),
            LogEntry::AlreadyInstalled => String::from_str("Estado: OpenVPN ya está instalado\n"),
            LogEntry::Failure { message } => String::from_str("Error: ").concat(
                message.as_str(),
            ).concat("\n"),
        }
    }

    /// The text of the entry as written at the moment `stamp`.
    pub fn text_at(&self, stamp: &str) -> (text: String)
        ensures
            text@ == self@.text_at(stamp@),
    {
        String::from_str(self.heading()).concat("[").concat(stamp).concat("] ").concat(
            self.line().as_str(),
        )
    }

    /// The text of the entry as written now: [`LogEntry::text_at`] the stamp
    /// of the moment the clock shows.
    pub fn stamped(&self) -> (text: String)
        ensures
            exists|seconds: i64| text@ == self@.text_at(stamp_text(seconds)),
    {
        let seconds = clock_seconds();
        let stamp = stamp_at(seconds);
        let text = self.text_at(stamp.as_str());
        assert(text@ == self@.text_at(stamp_text(seconds)));
        text
    }
}

/// The lines a fresh setup log starts with, written at the moment `stamp`.
pub open spec fn header_text(paths: PathsModel, stamp: Seq<char>) -> Seq<char> {
    "=== TPS Intermotors VPN Setup Log ===\nFecha: "@ + stamp + "\nDirectorio app: "@
        + paths.app_dir + "\nArchivos VPN encontrados:\n- Config: "@ + paths.locate(
        VpnFile::Config,
    ) + "\n- Credentials: "@ + paths.locate(VpnFile::Credentials) + "\n"@
}

pub fn header_at(paths: &VpnPaths, stamp: &str) -> (text: String)
    ensures
        text@ == header_text(paths@, stamp@),
{
    String::from_str("=== TPS Intermotors VPN Setup Log ===\nFecha: ").concat(stamp).concat(
        "\nDirectorio app: ",
    ).concat(paths.app_dir.as_str()).concat("\nArchivos VPN encontrados:\n- Config: ").concat(
        paths.locate(VpnFile::Config).as_str(),
    ).concat("\n- Credentials: ").concat(paths.locate(VpnFile::Credentials).as_str()).concat("\n")
}

/// The header of a setup log begun now: [`header_at`] the stamp of the
/// moment the clock shows.
pub fn header(paths: &VpnPaths) -> (text: String)
    ensures
        exists|seconds: i64| text@ == header_text(paths@, stamp_text(seconds)),
{
    let seconds = clock_seconds();
    let stamp = stamp_at(seconds);
    let text = header_at(paths, stamp.as_str());
    assert(text@ == header_text(paths@, stamp_text(seconds)));
    text
}

/// The stamp of the moment `seconds` after the beginning of 1970.
pub fn stamp_at(seconds: i64) -> (stamp: String)
    ensures
        stamp@ == stamp_text(seconds),
{
    match format_utc(seconds) {
        Some(text) => text,
        None => String::new(),
    }
}

/// The moment the system clock shows, in whole seconds after the beginning
/// of 1970, before it where negative: `std::time::SystemTime::now`, taken
/// over by chrono's `DateTime::<Utc>::from` and read by `DateTime::timestamp`.
/// Nothing is claimed of the number: it is whatever the clock says. chrono
/// takes over a clock that reads before 1970 as well; it gives up only on a
/// moment outside the years it can hold, -262143 to 262142.
#[verifier::external_body]
fn clock_seconds() -> i64 {
    chrono::DateTime::<chrono::Utc>::from(std::time::SystemTime::now()).timestamp()
}

/// `chrono::DateTime::from_timestamp` for `seconds` and no nanoseconds, then
/// `DateTime::format` with the pattern `%Y-%m-%d %H:%M:%S UTC`, written out.
/// The text is a function of `seconds` alone, named [`utc_stamp`]; there is
/// none exactly where `from_timestamp` gives no moment. The pattern is valid,
/// so the writing itself cannot fail.
#[verifier::external_body]
fn format_utc(seconds: i64) -> (stamp: Option<String>)
    ensures
        stamp is Some == utc_stamp(seconds) is Some,
        stamp matches Some(text) ==> utc_stamp(seconds) == Some(text@),
{
    match chrono::DateTime::from_timestamp(seconds, 0) {
        Some(moment) => Some(moment.format("%Y-%m-%d %H:%M:%S UTC").to_string()),
        None => None,
    }
}

} // verus!
