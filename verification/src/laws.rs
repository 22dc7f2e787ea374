//! What holds of every session, whatever the driver answers.
//!
//! The laws speak of the model in [`crate::session`], which the manager's
//! contracts tie its every call to.

use crate::error::ErrorModel;
use crate::launcher::{fallback, launch_plan, LaunchStrategy};
use crate::paths::{PathsModel, VpnFile};
use crate::protocol::{ActionModel, EventModel};
use crate::platform::Platform;
use crate::probe::ProbeOutcome;
use crate::session::{
    ConnectStageModel, DisconnectStage, PendingModel, SessionModel, SessionState, GRACE_SECONDS,
};
use crate::setup_log::LogEntryModel;
use vstd::prelude::*;

verus! {

/// A session takes a run of events, one after the other: the session it
/// has become at the end, and its answers, one for each event.
pub open spec fn replay<H>(session: SessionModel<H>, events: Seq<EventModel<H>>) -> (
    SessionModel<H>,
    Seq<ActionModel<H>>,
)
    decreases events.len(),
{
    if events.len() == 0 {
        (session, Seq::empty())
    } else {
        let (next, answer) = session.resume(events[0]);
        let (last, later) = replay(next, events.drop_first());
        (last, seq![answer] + later)
    }
}

/// The answers of a session to a run of events.
pub open spec fn answers<H>(session: SessionModel<H>, events: Seq<EventModel<H>>) -> Seq<
    ActionModel<H>,
> {
    replay(session, events).1
}

/// A new session is well formed, and every call keeps a session so.
pub proof fn law_sessions_stay_well_formed<H>(
    session: SessionModel<H>,
    paths: PathsModel,
    event: EventModel<H>,
)
    requires
        session.well_formed(),
    ensures
        SessionModel::<H>::initial().well_formed(),
        session.connect(paths).0.well_formed(),
        session.disconnect().0.well_formed(),
        session.resume(event).0.well_formed(),
{
    lemma_plan_holds_its_fallbacks(paths.platform);
    if let PendingModel::Connect { paths: own, stage } = session.pending {
        lemma_plan_holds_its_fallbacks(own.platform);
    }
}

/// A plan holds its first entry, and with each entry the one that follows it.
proof fn lemma_plan_holds_its_fallbacks(platform: Platform)
    ensures
        launch_plan(platform).contains(launch_plan(platform)[0]),
        forall|strategy: LaunchStrategy, next: LaunchStrategy|
            launch_plan(platform).contains(strategy) && fallback(strategy) == Some(next)
                ==> launch_plan(platform).contains(next),
{
    let plan = launch_plan(platform);
    assert(plan[0] == plan[0]);
    assert forall|strategy: LaunchStrategy, next: LaunchStrategy|
        plan.contains(strategy) && fallback(strategy) == Some(next) implies plan.contains(
        next,
    ) by {
        let i = choose|i: int| 0 <= i < plan.len() && plan[i] == strategy;
        assert(0 <= i < plan.len());
        assert(plan[i + 1] == next);
    }
}

/// Operations do not interleave. While one is in flight, a connect and a
/// disconnect are told to wait and change nothing; and the one in flight
/// is over exactly when the session answers `Finished`.
pub proof fn law_operations_take_turns<H>(
    session: SessionModel<H>,
    paths: PathsModel,
    event: EventModel<H>,
)
    requires
        !session.resting(),
    ensures
        session.connect(paths) == (session, ActionModel::<H>::Busy),
        session.disconnect() == (session, ActionModel::<H>::Busy),
        session.resume(event).0.resting() <==> session.resume(event).1 is Finished,
{
}

/// A session at rest takes no event: each comes back, and nothing changes.
pub proof fn law_resting_session_rejects_events<H>(session: SessionModel<H>, event: EventModel<H>)
    requires
        session.resting(),
    ensures
        session.resume(event) == (session, ActionModel::Rejected(event)),
{
}

/// A disconnect with no process tracked succeeds at once and asks for
/// nothing; a second one gives the same answer and the same session.
pub proof fn law_disconnect_is_idempotent<H>(session: SessionModel<H>)
    requires
        session.resting(),
        session.process is None,
    ensures
        session.disconnect().1 == ActionModel::<H>::Finished(Ok(())),
        session.disconnect().0.disconnect() == session.disconnect(),
{
}

/// A disconnect that ran its course, signal and wait, leaves no process
/// tracked; a disconnect after it has nothing to do.
pub proof fn law_disconnect_leaves_nothing_to_disconnect<H>(
    session: SessionModel<H>,
    process: H,
    returned: H,
)
    requires
        session.resting(),
        session.process == Some(process),
    ensures
        ({
            let (signalling, first) = session.disconnect();
            let (waiting, second) = signalling.resume(
                EventModel::KillDone { process: returned, failure: None },
            );
            let (done, last) = waiting.resume(EventModel::Reaped);
            &&& first == ActionModel::Kill(process)
            &&& second == ActionModel::Reap(returned)
            &&& last == ActionModel::<H>::Finished(Ok(()))
            &&& done == SessionModel::<H>::initial()
            &&& done.disconnect() == (done, ActionModel::<H>::Finished(Ok(())))
        }),
{
}

/// The grace period begins with the spawn: a process that was spawned is
/// held, and the answer is a sleep of [`GRACE_SECONDS`], ten seconds.
pub proof fn law_spawn_opens_grace_period<H>(
    session: SessionModel<H>,
    paths: PathsModel,
    strategy: LaunchStrategy,
    process: H,
)
    requires
        session.pending == (PendingModel::<H>::Connect {
            paths,
            stage: ConnectStageModel::Launching(strategy),
        }),
    ensures
        GRACE_SECONDS == 10,
        session.resume(EventModel::Spawned(process)) == (
            SessionModel {
                pending: PendingModel::Connect { paths, stage: ConnectStageModel::Grace(process) },
                ..session
            },
            ActionModel::<H>::Sleep { seconds: GRACE_SECONDS },
        ),
{
}

/// The first look at a process comes after the grace period and not before:
/// a poll is only ever the answer to the end of the sleep, and it is for the
/// process that was spawned.
pub proof fn law_poll_follows_grace_period<H>(
    session: SessionModel<H>,
    event: EventModel<H>,
    process: H,
)
    requires
        session.resume(event).1 == ActionModel::Poll(process),
    ensures
        event is Elapsed,
        session.pending matches PendingModel::Connect { stage, .. } && stage
            == ConnectStageModel::Grace(process),
{
}

/// Nothing but the end of the sleep ends the grace period: any other event
/// comes back, and the session waits on.
pub proof fn law_grace_period_is_not_cut_short<H>(
    session: SessionModel<H>,
    paths: PathsModel,
    process: H,
    event: EventModel<H>,
)
    requires
        session.pending == (PendingModel::<H>::Connect {
            paths,
            stage: ConnectStageModel::Grace(process),
        }),
        !(event is Elapsed),
    ensures
        session.resume(event) == (session, ActionModel::Rejected(event)),
{
}

/// Whether the installer is entered is decided in two places, and there
/// alone. Once the setup log is begun, the client is looked for exactly on a
/// platform that can install it. And an installation begins exactly when the
/// session has asked whether the client is installed, on such a platform, and
/// is told that it is not.
pub proof fn law_installation_begins_exactly_on_absence<H>(
    session: SessionModel<H>,
    event: EventModel<H>,
)
    requires
        session.well_formed(),
    ensures
        begins_logging(session) ==> (session.resume(EventModel::LogWritten).1 is CheckInstallation
            <==> attempts_on(session, true)),
        begins_installation(session.resume(event).1) <==> looks_for_client(session) && event == (
        EventModel::<H>::InstallationChecked { installed: false }),
        looks_for_client(session) ==> attempts_on(session, true),
{
}

/// The session has asked for a fresh setup log and waits for it.
pub open spec fn begins_logging<H>(session: SessionModel<H>) -> bool {
    session.pending matches PendingModel::Connect { stage, .. } && stage is HeaderLog
}

/// The session has asked, before any installation, whether the client is
/// installed, and waits for the answer.
pub open spec fn looks_for_client<H>(session: SessionModel<H>) -> bool {
    session.pending matches PendingModel::Connect { stage, .. } && stage is Detection
}

/// The session has an attempt in flight, on a platform that can install
/// the client, or cannot, as `installs` says.
pub open spec fn attempts_on<H>(session: SessionModel<H>, installs: bool) -> bool {
    session.pending matches PendingModel::Connect { paths, .. } && paths.platform.auto_installs()
        == installs
}

/// The first step of an installation.
pub open spec fn begins_installation<H>(action: ActionModel<H>) -> bool {
    action == ActionModel::<H>::AppendSetupLog(LogEntryModel::InstallStarted)
}

/// `answers` gives one answer for each event: the first by the session as it
/// is, the others by the session that the first event leaves.
proof fn lemma_answers_unfold<H>(session: SessionModel<H>, events: Seq<EventModel<H>>)
    requires
        events.len() > 0,
    ensures
        answers(session, events).len() == events.len(),
        answers(session, events)[0] == session.resume(events[0]).1,
        answers(session, events).drop_first() == answers(
            session.resume(events[0]).0,
            events.drop_first(),
        ),
        forall|j: int|
            1 <= j < events.len() ==> answers(session, events)[j] == answers(
                session.resume(events[0]).0,
                events.drop_first(),
            )[j - 1],
{
    let later = answers(session.resume(events[0]).0, events.drop_first());
    lemma_answers_count(session.resume(events[0]).0, events.drop_first());
    assert(answers(session, events) == seq![session.resume(events[0]).1] + later);
    assert(answers(session, events).drop_first() =~= later);
}

proof fn lemma_answers_count<H>(session: SessionModel<H>, events: Seq<EventModel<H>>)
    ensures
        answers(session, events).len() == events.len(),
    decreases events.len(),
{
    if events.len() > 0 {
        lemma_answers_count(session.resume(events[0]).0, events.drop_first());
    }
}

proof fn lemma_resting_session_answers<H>(
    session: SessionModel<H>,
    events: Seq<EventModel<H>>,
    j: int,
)
    requires
        session.resting(),
        0 <= j < events.len(),
    ensures
        answers(session, events)[j] is Rejected,
    decreases events.len(),
{
    lemma_answers_unfold(session, events);
    if j > 0 {
        lemma_resting_session_answers(session.resume(events[0]).0, events.drop_first(), j - 1);
    }
}

/// The answer that ends an attempt for want of a required file.
pub open spec fn reports_missing_file<H>(action: ActionModel<H>) -> bool {
    action matches ActionModel::Finished(Err(error)) && (error is ConfigMissing
        || error is CredentialsMissing)
}

/// The answers that do no more than look for the two required files, end
/// the attempt, or hand an event back.
pub open spec fn only_checks_required_files<H>(action: ActionModel<H>) -> bool {
    action == ActionModel::<H>::CheckFile(VpnFile::Config) || action == ActionModel::<
        H,
    >::CheckFile(VpnFile::Credentials) || action is Finished || action is Rejected
}

spec fn checking_required_files<H>(session: SessionModel<H>) -> bool {
    session.pending matches PendingModel::Connect { stage, .. } && (stage is ConfigCheck
        || stage is CredentialsCheck)
}

/// The session is past the look for the required files, and reports no
/// such file missing.
spec fn past_required_files<H>(session: SessionModel<H>) -> bool {
    session.pending matches PendingModel::Connect { stage, .. } ==> !(stage is ConfigCheck) && !(
    stage is CredentialsCheck) && (stage matches ConnectStageModel::Reporting(error) ==> !(
    error is ConfigMissing) && !(error is CredentialsMissing))
}

proof fn lemma_checks_are_not_returned_to<H>(session: SessionModel<H>, event: EventModel<H>)
    requires
        past_required_files(session),
    ensures
        past_required_files(session.resume(event).0),
        !reports_missing_file(session.resume(event).1),
{
    match session.pending {
        PendingModel::Connect { paths, stage } => {
            if stage.installs() {
                assert(session.resume(event) == session.resume_install(paths, stage, event));
            } else if stage.supervises() {
                assert(session.resume(event) == session.resume_supervision(paths, stage, event));
            } else {
                assert(session.resume(event) == session.resume_preparation(paths, stage, event));
            }
        },
        _ => {},
    }
}

proof fn lemma_no_missing_file_past_the_checks<H>(
    session: SessionModel<H>,
    events: Seq<EventModel<H>>,
    j: int,
)
    requires
        past_required_files(session),
        0 <= j < events.len(),
    ensures
        !reports_missing_file(answers(session, events)[j]),
    decreases events.len(),
{
    lemma_answers_unfold(session, events);
    lemma_checks_are_not_returned_to(session, events[0]);
    if j > 0 {
        lemma_no_missing_file_past_the_checks(
            session.resume(events[0]).0,
            events.drop_first(),
            j - 1,
        );
    }
}

proof fn lemma_missing_file_during_the_checks<H>(
    session: SessionModel<H>,
    events: Seq<EventModel<H>>,
    k: int,
    j: int,
)
    requires
        checking_required_files(session),
        0 <= k < events.len(),
        0 <= j < events.len(),
        reports_missing_file(answers(session, events)[k]),
    ensures
        only_checks_required_files(answers(session, events)[j]),
    decreases events.len(),
{
    lemma_answers_unfold(session, events);
    let next = session.resume(events[0]).0;
    let rest = events.drop_first();
    if checking_required_files(next) {
        if j > 0 {
            lemma_missing_file_during_the_checks(next, rest, k - 1, j - 1);
        }
    } else if next.resting() {
        if j > 0 {
            lemma_resting_session_answers(next, rest, j - 1);
        }
    } else {
        lemma_no_missing_file_past_the_checks(next, rest, k - 1);
    }
}

/// An attempt that ends for want of the configuration or of the credentials
/// has done nothing but look for those two files: no process was spawned, no
/// installation entered, no log written, whatever the driver answered and in
/// whatever order.
pub proof fn law_missing_file_ends_attempt_untouched<H>(
    session: SessionModel<H>,
    paths: PathsModel,
    events: Seq<EventModel<H>>,
)
    requires
        session.resting(),
    ensures
        session.connect(paths).1 == ActionModel::<H>::CheckFile(VpnFile::Config),
        (exists|k: int|
            0 <= k < events.len() && reports_missing_file(
                answers(session.connect(paths).0, events)[k],
            )) ==> (forall|j: int|
            0 <= j < events.len() ==> only_checks_required_files(
                #[trigger] answers(session.connect(paths).0, events)[j],
            )),
{
    let begun = session.connect(paths).0;
    if exists|k: int| 0 <= k < events.len() && reports_missing_file(answers(begun, events)[k]) {
        let k = choose|k: int|
            0 <= k < events.len() && reports_missing_file(answers(begun, events)[k]);
        assert forall|j: int| 0 <= j < events.len() implies only_checks_required_files(
            #[trigger] answers(begun, events)[j],
        ) by {
            lemma_missing_file_during_the_checks(begun, events, k, j);
        }
    }
}

/// The answers that are steps of an installation.
pub open spec fn belongs_to_installation<H>(action: ActionModel<H>) -> bool {
    begins_installation(action) || action == ActionModel::<H>::CheckFile(
        VpnFile::InstallerPackage,
    ) || action == ActionModel::<H>::CheckFile(VpnFile::InstallScript) || action is RunInstaller
        || action == ActionModel::<H>::AppendSetupLog(LogEntryModel::InstallCompleted)
}

/// The attempt has not yet come to decide on an installation.
spec fn before_installation_decision<H>(session: SessionModel<H>) -> bool {
    session.pending matches PendingModel::Connect { paths, stage } && (stage is ConfigCheck
        || stage is CredentialsCheck || stage is HeaderLog || (stage is Detection
        && paths.platform.auto_installs()))
}

/// No installation can follow: none is under way, and the decision, if
/// there was one to take, went against it.
spec fn installation_ruled_out<H>(session: SessionModel<H>) -> bool {
    session.pending matches PendingModel::Connect { stage, .. } ==> stage is PresenceLog
        || stage is Reporting || stage.supervises()
}

/// On this session's platform nothing can be installed, and no installation
/// is under way.
spec fn cannot_install<H>(session: SessionModel<H>) -> bool {
    session.pending matches PendingModel::Connect { paths, stage } ==> !stage.installs()
        && !paths.platform.auto_installs()
}

proof fn lemma_ruled_out_installation_stays_out<H>(
    session: SessionModel<H>,
    events: Seq<EventModel<H>>,
    j: int,
)
    requires
        installation_ruled_out(session),
        0 <= j < events.len(),
    ensures
        !belongs_to_installation(answers(session, events)[j]),
    decreases events.len(),
{
    lemma_answers_unfold(session, events);
    if j > 0 {
        lemma_ruled_out_installation_stays_out(
            session.resume(events[0]).0,
            events.drop_first(),
            j - 1,
        );
    }
}

proof fn lemma_no_installation_where_none_is_possible<H>(
    session: SessionModel<H>,
    events: Seq<EventModel<H>>,
    j: int,
)
    requires
        cannot_install(session),
        0 <= j < events.len(),
    ensures
        !belongs_to_installation(answers(session, events)[j]),
        !(answers(session, events)[j] is CheckInstallation),
    decreases events.len(),
{
    lemma_answers_unfold(session, events);
    if j > 0 {
        lemma_no_installation_where_none_is_possible(
            session.resume(events[0]).0,
            events.drop_first(),
            j - 1,
        );
    }
}

proof fn lemma_installation_follows_absence<H>(
    session: SessionModel<H>,
    events: Seq<EventModel<H>>,
    j: int,
) -> (i: int)
    requires
        before_installation_decision(session),
        0 <= j < events.len(),
        belongs_to_installation(answers(session, events)[j]),
    ensures
        0 <= i < events.len(),
        events[i] == (EventModel::<H>::InstallationChecked { installed: false }),
        attempts_on(session, true),
    decreases events.len(),
{
    lemma_answers_unfold(session, events);
    let next = session.resume(events[0]).0;
    let rest = events.drop_first();
    if before_installation_decision(next) {
        lemma_installation_follows_absence(next, rest, j - 1) + 1
    } else if installation_ruled_out(next) {
        lemma_ruled_out_installation_stays_out(next, rest, j - 1);
        0
    } else {
        0
    }
}

/// The installer is entered only where the platform allows it and the
/// client was looked for and not found: an attempt whose answers hold a step
/// of an installation was told, by an event, that the client is absent.
/// Where the platform does not allow it, an attempt neither looks for the
/// client nor installs it, whatever the driver answers.
pub proof fn law_installation_only_where_client_is_absent<H>(
    session: SessionModel<H>,
    paths: PathsModel,
    events: Seq<EventModel<H>>,
)
    requires
        session.resting(),
    ensures
        (exists|j: int|
            0 <= j < events.len() && belongs_to_installation(
                answers(session.connect(paths).0, events)[j],
            )) ==> paths.platform.auto_installs() && events.contains(
            EventModel::InstallationChecked { installed: false },
        ),
        !paths.platform.auto_installs() ==> (forall|j: int|
            0 <= j < events.len() ==> !belongs_to_installation(
                #[trigger] answers(session.connect(paths).0, events)[j],
            ) && !(answers(session.connect(paths).0, events)[j] is CheckInstallation)),
{
    let begun = session.connect(paths).0;
    if exists|j: int| 0 <= j < events.len() && belongs_to_installation(answers(begun, events)[j]) {
        let j = choose|j: int|
            0 <= j < events.len() && belongs_to_installation(answers(begun, events)[j]);
        let i = lemma_installation_follows_absence(begun, events, j);
        assert(events[i] == EventModel::<H>::InstallationChecked { installed: false });
    }
    if !paths.platform.auto_installs() {
        assert forall|j: int| 0 <= j < events.len() implies !belongs_to_installation(
            #[trigger] answers(begun, events)[j],
        ) && !(answers(begun, events)[j] is CheckInstallation) by {
            lemma_no_installation_where_none_is_possible(begun, events, j);
        }
    }
}

/// The strategies that a run of answers asked to spawn with, in order.
pub open spec fn strategies_tried<H>(actions: Seq<ActionModel<H>>) -> Seq<LaunchStrategy>
    decreases actions.len(),
{
    if actions.len() == 0 {
        Seq::empty()
    } else {
        match actions[0] {
            ActionModel::Spawn(strategy) => seq![strategy] + strategies_tried(
                actions.drop_first(),
            ),
            _ => strategies_tried(actions.drop_first()),
        }
    }
}

/// The strategies of the plan that come after `strategy`.
spec fn strategies_after(strategy: LaunchStrategy) -> Seq<LaunchStrategy> {
    match strategy {
        LaunchStrategy::PrivilegedHelper => seq![
            LaunchStrategy::SudoNonInteractive,
            LaunchStrategy::Unprivileged,
        ],
        LaunchStrategy::SudoNonInteractive => seq![LaunchStrategy::Unprivileged],
        LaunchStrategy::Direct | LaunchStrategy::Unprivileged => Seq::empty(),
    }
}

/// The strategies the session may still ask to spawn with, in order.
spec fn strategies_left<H>(session: SessionModel<H>) -> Seq<LaunchStrategy> {
    match session.pending {
        PendingModel::Connect { paths, stage } => match stage {
            ConnectStageModel::Launching(strategy) => strategies_after(strategy),
            _ => if stage.supervises() || stage is Reporting {
                Seq::empty()
            } else {
                launch_plan(paths.platform)
            },
        },
        _ => Seq::empty(),
    }
}

/// One step either spawns with the first strategy left and leaves the rest,
/// or spawns nothing and leaves no more than was left.
proof fn lemma_spawn_takes_next_strategy<H>(session: SessionModel<H>, event: EventModel<H>)
    ensures
        match session.resume(event).1 {
            ActionModel::Spawn(strategy) => strategies_left(session) == seq![strategy]
                + strategies_left(session.resume(event).0),
            _ => strategies_left(session.resume(event).0).is_prefix_of(strategies_left(session)),
        },
{
    match session.pending {
        PendingModel::Connect { paths, stage } => {
            let plan = launch_plan(paths.platform);
            assert(plan =~= seq![plan[0]] + strategies_after(plan[0]));
            match stage {
                ConnectStageModel::Launching(strategy) => {
                    if let Some(next) = fallback(strategy) {
                        assert(strategies_after(strategy) =~= seq![next] + strategies_after(next));
                    }
                },
                _ => {},
            }
            let left = strategies_left(session);
            assert(left.subrange(0, left.len() as int) =~= left);
            assert(left.subrange(0, 0) =~= Seq::<LaunchStrategy>::empty());
        },
        _ => {
            assert(Seq::<LaunchStrategy>::empty().subrange(0, 0) =~= Seq::<
                LaunchStrategy,
            >::empty());
        },
    }
}

proof fn lemma_strategies_tried_are_those_left<H>(
    session: SessionModel<H>,
    events: Seq<EventModel<H>>,
)
    ensures
        strategies_tried(answers(session, events)).is_prefix_of(strategies_left(session)),
    decreases events.len(),
{
    let left = strategies_left(session);
    if events.len() == 0 {
        assert(left.subrange(0, 0) =~= Seq::<LaunchStrategy>::empty());
    } else {
        let next = session.resume(events[0]).0;
        let later = strategies_tried(answers(next, events.drop_first()));
        lemma_answers_unfold(session, events);
        lemma_spawn_takes_next_strategy(session, events[0]);
        lemma_strategies_tried_are_those_left(next, events.drop_first());
        let left_then = strategies_left(next);
        assert(later =~= left_then.subrange(0, later.len() as int));
        match session.resume(events[0]).1 {
            ActionModel::Spawn(strategy) => {
                let tried = seq![strategy] + later;
                assert(strategies_tried(answers(session, events)) == tried);
                assert(tried =~= left.subrange(0, tried.len() as int));
            },
            _ => {
                assert(strategies_tried(answers(session, events)) == later);
                assert(left_then =~= left.subrange(0, left_then.len() as int));
                assert(later =~= left.subrange(0, later.len() as int));
            },
        }
    }
}

/// The launcher keeps to its plan: the strategies an attempt asks to spawn
/// with are the first entries of the platform's plan, in the plan's order,
/// none left out and none twice.
pub proof fn law_launch_follows_plan<H>(
    session: SessionModel<H>,
    paths: PathsModel,
    events: Seq<EventModel<H>>,
)
    requires
        session.resting(),
    ensures
        strategies_tried(answers(session.connect(paths).0, events)).is_prefix_of(
            launch_plan(paths.platform),
        ),
{
    lemma_strategies_tried_are_those_left(session.connect(paths).0, events);
}

/// The launcher stops at the first spawn that succeeds: once a process was
/// spawned, the attempt asks for no further spawn, and a strategy that
/// failed is followed by the next of the plan, or by the report that all
/// have failed.
pub proof fn law_launch_stops_at_first_success<H>(
    session: SessionModel<H>,
    paths: PathsModel,
    strategy: LaunchStrategy,
    process: H,
    detail: Seq<char>,
    events: Seq<EventModel<H>>,
)
    requires
        session.pending == (PendingModel::<H>::Connect {
            paths,
            stage: ConnectStageModel::Launching(strategy),
        }),
    ensures
        strategies_tried(answers(session.resume(EventModel::Spawned(process)).0, events))
            == Seq::<LaunchStrategy>::empty(),
        session.resume(EventModel::SpawnFailed { detail }) == match fallback(strategy) {
            Some(next) => session.launch(paths, next),
            None => session.report(
                paths,
                ErrorModel::SpawnFailed { platform: paths.platform, detail },
            ),
        },
{
    let held = session.resume(EventModel::Spawned(process)).0;
    lemma_strategies_tried_are_those_left(held, events);
    assert(strategies_tried(answers(held, events)) =~= Seq::<LaunchStrategy>::empty());
}

/// The supervisor's verdict on a process that still runs after the grace
/// period. Where the probe finds the endpoint, the session is connected and
/// tracks the very process that was spawned. Where it does not, the process
/// is killed, whether or not the signal could be sent, the attempt fails for
/// want of connectivity, and what the session tracked before stays as it was.
pub proof fn law_running_process_is_kept_or_killed<H>(
    session: SessionModel<H>,
    paths: PathsModel,
    strategy: LaunchStrategy,
    process: H,
    outcome: ProbeOutcome,
    failure: Option<Seq<char>>,
)
    requires
        session.pending == (PendingModel::<H>::Connect {
            paths,
            stage: ConnectStageModel::Launching(strategy),
        }),
    ensures
        outcome.healthy() ==> replay(
            session,
            seq![
                EventModel::Spawned(process),
                EventModel::Elapsed,
                EventModel::Running(process),
                EventModel::Probed(outcome),
            ],
        ) == (
            SessionModel {
                state: SessionState::Connected,
                process: Some(process),
                pending: PendingModel::Nothing,
            },
            seq![
                ActionModel::Sleep { seconds: GRACE_SECONDS },
                ActionModel::Poll(process),
                ActionModel::Probe,
                ActionModel::Finished(Ok(())),
            ],
        ),
        !outcome.healthy() ==> replay(
            session,
            seq![
                EventModel::Spawned(process),
                EventModel::Elapsed,
                EventModel::Running(process),
                EventModel::Probed(outcome),
                EventModel::KillDone { process, failure },
            ],
        ) == (
            SessionModel {
                state: session.state_without_tunnel(),
                process: session.process,
                pending: PendingModel::Nothing,
            },
            seq![
                ActionModel::Sleep { seconds: GRACE_SECONDS },
                ActionModel::Poll(process),
                ActionModel::Probe,
                ActionModel::Kill(process),
                ActionModel::Finished(Err(ErrorModel::NoConnectivityAfterLaunch)),
            ],
        ),
{
    let live = seq![
        EventModel::Spawned(process),
        EventModel::Elapsed,
        EventModel::Running(process),
        EventModel::Probed(outcome),
    ];
    let killed = live.push(EventModel::KillDone { process, failure });
    assert(killed =~= seq![
        EventModel::Spawned(process),
        EventModel::Elapsed,
        EventModel::Running(process),
        EventModel::Probed(outcome),
        EventModel::KillDone { process, failure },
    ]);
    lemma_replay_unrolls(session, live);
    lemma_replay_unrolls(session, killed);
}

/// The supervisor's verdict on a process that has exited within the grace
/// period: the probe is asked whatever the exit status. Where it finds the
/// endpoint, the session is connected with no new process tracked; where it
/// does not, the attempt fails with an error that holds the exit status.
pub proof fn law_exited_process_is_judged_by_the_probe<H>(
    session: SessionModel<H>,
    paths: PathsModel,
    strategy: LaunchStrategy,
    process: H,
    status: Seq<char>,
    outcome: ProbeOutcome,
)
    requires
        session.pending == (PendingModel::<H>::Connect {
            paths,
            stage: ConnectStageModel::Launching(strategy),
        }),
    ensures
        replay(
            session,
            seq![
                EventModel::Spawned(process),
                EventModel::Elapsed,
                EventModel::Exited { status },
                EventModel::Probed(outcome),
            ],
        ) == (
            SessionModel {
                state: if outcome.healthy() {
                    SessionState::Connected
                } else {
                    session.state_without_tunnel()
                },
                process: session.process,
                pending: PendingModel::Nothing,
            },
            seq![
                ActionModel::Sleep { seconds: GRACE_SECONDS },
                ActionModel::Poll(process),
                ActionModel::Probe,
                ActionModel::Finished(
                    if outcome.healthy() {
                        Ok(())
                    } else {
                        Err(ErrorModel::ProcessExitedNoConnectivity { status })
                    },
                ),
            ],
        ),
{
    let events = seq![
        EventModel::Spawned(process),
        EventModel::Elapsed,
        EventModel::Exited { status },
        EventModel::Probed(outcome),
    ];
    lemma_replay_unrolls(session, events);
}

/// `replay` on four or five events, written out.
proof fn lemma_replay_unrolls<H>(session: SessionModel<H>, events: Seq<EventModel<H>>)
    requires
        4 <= events.len() <= 5,
    ensures
        ({
            let (first, a) = session.resume(events[0]);
            let (second, b) = first.resume(events[1]);
            let (third, c) = second.resume(events[2]);
            let (fourth, d) = third.resume(events[3]);
            if events.len() == 4 {
                replay(session, events) == (fourth, seq![a, b, c, d])
            } else {
                replay(session, events) == (
                    fourth.resume(events[4]).0,
                    seq![a, b, c, d, fourth.resume(events[4]).1],
                )
            }
        }),
{
    reveal_with_fuel(replay, 6);
    let one = events.drop_first();
    let two = one.drop_first();
    let three = two.drop_first();
    let four = three.drop_first();
    assert(one[0] == events[1]);
    assert(two[0] == events[2]);
    assert(three[0] == events[3]);
    let (first, a) = session.resume(events[0]);
    let (second, b) = first.resume(events[1]);
    let (third, c) = second.resume(events[2]);
    let (fourth, d) = third.resume(events[3]);
    if events.len() == 4 {
        assert(replay(fourth, four).1 =~= Seq::<ActionModel<H>>::empty());
        assert(replay(session, events).1 =~= seq![a, b, c, d]);
    } else {
        assert(four[0] == events[4]);
        let e = fourth.resume(events[4]).1;
        assert(replay(fourth.resume(events[4]).0, four.drop_first()).1 =~= Seq::<
            ActionModel<H>,
        >::empty());
        assert(replay(session, events).1 =~= seq![a, b, c, d, e]);
    }
}

/// How many more events an operation can take before it is over.
pub open spec fn steps_left<H>(session: SessionModel<H>) -> nat {
    match session.pending {
        PendingModel::Nothing => 0,
        PendingModel::Disconnect(stage) => match stage {
            DisconnectStage::Terminating => 2,
            DisconnectStage::Reaping => 1,
        },
        PendingModel::Connect { stage, .. } => match stage {
            ConnectStageModel::ConfigCheck => 18,
            ConnectStageModel::CredentialsCheck => 17,
            ConnectStageModel::HeaderLog => 16,
            ConnectStageModel::Detection => 15,
            ConnectStageModel::InstallNotice => 14,
            ConnectStageModel::PackageCheck => 13,
            ConnectStageModel::ScriptCheck => 12,
            ConnectStageModel::InstallerRun => 11,
            ConnectStageModel::Settling => 10,
            ConnectStageModel::Recheck => 9,
            ConnectStageModel::InstallDoneLog => 8,
            ConnectStageModel::PresenceLog => 8,
            ConnectStageModel::Launching(LaunchStrategy::PrivilegedHelper) => 7,
            ConnectStageModel::Launching(LaunchStrategy::SudoNonInteractive) => 6,
            ConnectStageModel::Launching(_) => 5,
            ConnectStageModel::Grace(_) => 4,
            ConnectStageModel::Polling => 3,
            ConnectStageModel::ProbingLive(_) => 2,
            ConnectStageModel::ProbingExited { .. } => 1,
            ConnectStageModel::Killing => 1,
            ConnectStageModel::Reporting(_) => 1,
        },
    }
}

/// Every operation runs to an end. Each event that the session takes
/// brings the operation nearer to it: a connect is over after eighteen
/// events at most, a disconnect after two, and there is no way back.
pub proof fn law_operations_run_to_an_end<H>(session: SessionModel<H>, event: EventModel<H>)
    ensures
        steps_left(session) == 0 <==> session.resting(),
        steps_left(session) <= 18,
        session.resume(event).1 is Rejected || steps_left(session.resume(event).0) < steps_left(
            session,
        ),
{
}

} // verus!
