//! Is the tunnel client installed? Where it is looked for, in which order,
//! and what counts as having found it.

use crate::launcher::{push_text, texts, Invocation, InvocationModel};
use crate::platform::Platform;
use vstd::prelude::*;

verus! {

/// One place to look for the tunnel client.
#[derive(Clone, Copy, Debug, PartialEq, Eq, Structural)]
pub enum DetectionProbe {
    /// The client's executable under the programs folder.
    ProgramFiles,
    /// The client's executable under the folder for 32-bit programs.
    ProgramFilesX86,
    /// The registry's list of programs that can be uninstalled.
    UninstallRegistry,
    /// The executable search path.
    SearchPath,
}

/// What the driver is to do for a probe.
#[derive(Debug, PartialEq, Eq)]
pub enum ProbeRequest {
    /// See whether this path exists.
    PathExists(String),
    /// Run this command and collect what it prints.
    Run(Invocation),
}

/// What the driver saw.
#[derive(Debug, PartialEq, Eq)]
pub enum Observation {
    /// Whether the path exists. A path that cannot be examined does not.
    PathChecked { exists: bool },
    /// The command ran: whether it reported success, and what it printed.
    CommandRan { success: bool, output: Vec<u8> },
    /// The command could not be run.
    CommandFailed,
}

/// What a [`ProbeRequest`] stands for.
pub enum ProbeRequestModel {
    PathExists(Seq<char>),
    Run(InvocationModel),
}

/// What an [`Observation`] stands for.
pub enum ObservationModel {
    PathChecked { exists: bool },
    CommandRan { success: bool, output: Seq<u8> },
    CommandFailed,
}

/// Where a detection stands after a probe.
#[derive(Clone, Copy, Debug, PartialEq, Eq, Structural)]
pub enum DetectionStep {
    /// Undecided: look here next.
    Examine(DetectionProbe),
    /// Decided: the client is installed, or it is not.
    Verdict(bool),
}

impl View for ProbeRequest {
    type V = ProbeRequestModel;

    open spec fn view(&self) -> ProbeRequestModel {
        match self {
            ProbeRequest::PathExists(path) => ProbeRequestModel::PathExists(path@),
            ProbeRequest::Run(command) => ProbeRequestModel::Run(command@),
        }
    }
}

impl View for Observation {
    type V = ObservationModel;

    open spec fn view(&self) -> ObservationModel {
        match self {
            Observation::PathChecked { exists } => ObservationModel::PathChecked {
                exists: *exists,
            },
            Observation::CommandRan { success, output } => ObservationModel::CommandRan {
                success: *success,
                output: output@,
            },
            Observation::CommandFailed => ObservationModel::CommandFailed,
        }
    }
}

/// The probes of a platform, first to last.
pub open spec fn detection_plan(platform: Platform) -> Seq<DetectionProbe> {
    match platform {
        Platform::Windows => seq![
            DetectionProbe::ProgramFiles,
            DetectionProbe::ProgramFilesX86,
            DetectionProbe::UninstallRegistry,
        ],
        Platform::UnixLike => seq![DetectionProbe::SearchPath],
    }
}

/// The bytes of the product's name, `OpenVPN`.
pub open spec fn product_name() -> Seq<u8> {
    seq![0x4fu8, 0x70u8, 0x65u8, 0x6eu8, 0x56u8, 0x50u8, 0x4eu8]
}

/// `needle` stands in `haystack` from position `at` on.
pub open spec fn occurs_at(haystack: Seq<u8>, needle: Seq<u8>, at: int) -> bool {
    0 <= at && at + needle.len() <= haystack.len() && haystack.subrange(
        at,
        at + needle.len(),
    ) == needle
}

/// `needle` stands somewhere in `haystack`.
pub open spec fn occurs_in(haystack: Seq<u8>, needle: Seq<u8>) -> bool {
    exists|at: int| occurs_at(haystack, needle, at)
}

impl DetectionProbe {
    /// The probe to go on with where this one found nothing.
    pub open spec fn following(self) -> Option<DetectionProbe> {
        match self {
            DetectionProbe::ProgramFiles => Some(DetectionProbe::ProgramFilesX86),
            DetectionProbe::ProgramFilesX86 => Some(DetectionProbe::UninstallRegistry),
            DetectionProbe::UninstallRegistry | DetectionProbe::SearchPath => None,
        }
    }

    /// Whether what was seen shows the client to be installed. A path must
    /// exist; the registry's answer must name the product; the search must
    /// succeed. An observation of another kind than the probe asks for shows
    /// nothing.
    pub open spec fn detects(self, seen: ObservationModel) -> bool {
        match (self, seen) {
            (
                DetectionProbe::ProgramFiles | DetectionProbe::ProgramFilesX86,
                ObservationModel::PathChecked { exists },
            ) => exists,
            (DetectionProbe::UninstallRegistry, ObservationModel::CommandRan { output, .. }) =>
                occurs_in(output, product_name()),
            (DetectionProbe::SearchPath, ObservationModel::CommandRan { success, .. }) => success,
            _ => false,
        }
    }

    /// Found: installed. Not found: on to the next probe, or, after the
    /// last, not installed.
    pub open spec fn step(self, seen: ObservationModel) -> DetectionStep {
        if self.detects(seen) {
            DetectionStep::Verdict(true)
        } else {
            match self.following() {
                Some(next) => DetectionStep::Examine(next),
                None => DetectionStep::Verdict(false),
            }
        }
    }

    pub open spec fn request_model(self) -> ProbeRequestModel {
        match self {
            DetectionProbe::ProgramFiles => ProbeRequestModel::PathExists(
                "C:\\Program Files\\OpenVPN\\bin\\openvpn.exe"@,
            ),
            DetectionProbe::ProgramFilesX86 => ProbeRequestModel::PathExists(
                "C:\\Program Files (x86)\\OpenVPN\\bin\\openvpn.exe"@,
            ),
            DetectionProbe::UninstallRegistry => ProbeRequestModel::Run(
                InvocationModel {
                    program: "reg"@,
                    args: seq![
                        "query"@,
                        "HKLM\\SOFTWARE\\Microsoft\\Windows\\CurrentVersion\\Uninstall"@,
                        "/s"@,
                        "/f"@,
                        "OpenVPN"@,
                    ],
                },
            ),
            DetectionProbe::SearchPath => ProbeRequestModel::Run(
                InvocationModel { program: "which"@, args: seq!["openvpn"@] },
            ),
        }
    }

    /// What the driver is to do for this probe.
    pub fn request(&self) -> (request: ProbeRequest)
        ensures
            request@ == self.request_model(),
    {
        match self {
            DetectionProbe::ProgramFiles => ProbeRequest::PathExists(
                String::from_str("C:\\Program Files\\OpenVPN\\bin\\openvpn.exe"),
            ),
            DetectionProbe::ProgramFilesX86 => ProbeRequest::PathExists(
                String::from_str("C:\\Program Files (x86)\\OpenVPN\\bin\\openvpn.exe"),
            ),
            DetectionProbe::UninstallRegistry => {
                let mut args: Vec<String> = Vec::new();
                assert(texts(args@) =~= seq![]);
                push_text(&mut args, "query");
                push_text(
                    &mut args,
                    "HKLM\\SOFTWARE\\Microsoft\\Windows\\CurrentVersion\\Uninstall",
                );
                push_text(&mut args, "/s");
                push_text(&mut args, "/f");
                push_text(&mut args, "OpenVPN");
                let command = Invocation { program: String::from_str("reg"), args };
                assert(command@.args =~= self.request_model()->Run_0.args);
                ProbeRequest::Run(command)
            },
            DetectionProbe::SearchPath => {
                let mut args: Vec<String> = Vec::new();
                assert(texts(args@) =~= seq![]);
                push_text(&mut args, "openvpn");
                let command = Invocation { program: String::from_str("which"), args };
                assert(command@.args =~= self.request_model()->Run_0.args);
                ProbeRequest::Run(command)
            },
        }
    }
}

/// Whether `needle` stands in `haystack` from position `at` on.
fn matches_at(haystack: &[u8], needle: &[u8], at: usize) -> (yes: bool)
    requires
        at + needle@.len() <= haystack@.len(),
    ensures
        yes == occurs_at(haystack@, needle@, at as int),
{
    let length: usize = needle.len();
    let whole: usize = haystack.len();
    let mut offset: usize = 0;
    while offset < length
        invariant
            length == needle@.len(),
            whole == haystack@.len(),
            offset <= length,
            at + length <= whole,
            forall|k: int| 0 <= k < offset ==> haystack@[at + k] == needle@[k],
        decreases length - offset,
    {
        if haystack[at + offset] != needle[offset] {
            proof {
                let part = haystack@.subrange(at as int, at + length);
                assert(part[offset as int] != needle@[offset as int]);
            }
            return false;
        }
        offset += 1;
    }
    assert(haystack@.subrange(at as int, at + length) =~= needle@);
    true
}

/// Whether `needle` stands somewhere in `haystack`.
pub fn contains_bytes(haystack: &[u8], needle: &[u8]) -> (yes: bool)
    ensures
        yes == occurs_in(haystack@, needle@),
{
    if needle.len() > haystack.len() {
        return false;
    }
    let last: usize = haystack.len() - needle.len();
    let mut at: usize = 0;
    loop
        invariant
            last == haystack@.len() - needle@.len(),
            at <= last,
            forall|k: int| 0 <= k < at ==> !occurs_at(haystack@, needle@, k),
        decreases last - at,
    {
        if matches_at(haystack, needle, at) {
            return true;
        }
        if at == last {
            return false;
        }
        at += 1;
    }
}

/// Whether the registry's answer names the product.
pub fn mentions_product(output: &[u8]) -> (yes: bool)
    ensures
        yes == occurs_in(output@, product_name()),
{
    let name: [u8; 7] = [0x4f, 0x70, 0x65, 0x6e, 0x56, 0x50, 0x4e];
    assert(name@ =~= product_name());
    contains_bytes(output, name.as_slice())
}

/// The probe a detection begins with.
pub fn first_probe(platform: Platform) -> (probe: DetectionProbe)
    ensures
        probe == detection_plan(platform)[0],
{
    match platform {
        Platform::Windows => DetectionProbe::ProgramFiles,
        Platform::UnixLike => DetectionProbe::SearchPath,
    }
}

/// Where the detection stands once `probe` has been answered by `seen`.
pub fn after_probe(probe: DetectionProbe, seen: &Observation) -> (step: DetectionStep)
    ensures
        step == probe.step(seen@),
{
    let found = match (probe, seen) {
        (
            DetectionProbe::ProgramFiles | DetectionProbe::ProgramFilesX86,
            Observation::PathChecked { exists },
        ) => *exists,
        (DetectionProbe::UninstallRegistry, Observation::CommandRan { output, .. }) =>
            mentions_product(output.as_slice()),
        (DetectionProbe::SearchPath, Observation::CommandRan { success, .. }) => *success,
        _ => false,
    };
    if found {
        DetectionStep::Verdict(true)
    } else {
        match probe {
            DetectionProbe::ProgramFiles => DetectionStep::Examine(DetectionProbe::ProgramFilesX86),
            DetectionProbe::ProgramFilesX86 => DetectionStep::Examine(
                DetectionProbe::UninstallRegistry,
            ),
            DetectionProbe::UninstallRegistry | DetectionProbe::SearchPath =>
                DetectionStep::Verdict(false),
        }
    }
}

/// The verdict of a detection that begins at `probe` and is answered, probe
/// after probe, by `seen`.
pub open spec fn verdict_from(probe: DetectionProbe, seen: Seq<ObservationModel>) -> bool
    decreases seen.len(),
{
    if seen.len() == 0 {
        false
    } else {
        match probe.step(seen[0]) {
            DetectionStep::Verdict(installed) => installed,
            DetectionStep::Examine(next) => verdict_from(next, seen.drop_first()),
        }
    }
}

/// A detection walks the platform's plan and stops at the first probe that
/// finds the client: it says "installed" exactly when some probe of the plan
/// finds it, and what later probes would have seen does not matter.
pub proof fn law_detection_finds_first_evidence(platform: Platform, seen: Seq<ObservationModel>)
    requires
        seen.len() == detection_plan(platform).len(),
    ensures
        verdict_from(detection_plan(platform)[0], seen) == (exists|i: int|
            0 <= i < seen.len() && (#[trigger] detection_plan(platform)[i]).detects(seen[i])),
{
    reveal_with_fuel(verdict_from, 4);
    let plan = detection_plan(platform);
    let rest = seen.drop_first();
    if verdict_from(plan[0], seen) {
        if plan[0].detects(seen[0]) {
        } else if plan[1].detects(seen[1]) {
            assert(rest[0] == seen[1]);
        } else {
            assert(rest.drop_first()[0] == seen[2]);
            assert(plan[2].detects(seen[2]));
        }
    } else {
        assert forall|i: int| 0 <= i < seen.len() implies !(#[trigger] plan[i]).detects(
            seen[i],
        ) by {
            if i >= 1 {
                assert(rest[0] == seen[1]);
            }
            if i >= 2 {
                assert(rest.drop_first()[0] == seen[2]);
            }
        }
    }
}

} // verus!
