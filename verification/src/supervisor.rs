//! The background unit as a state machine.
//!
//! The unit announces the storage paths, has the service configuration
//! loaded, runs the service once, and reports how it ended. A failure of the
//! service ends the unit with a report and nothing else. The machine
//! decides; its caller writes the lines, loads the configuration, runs the
//! service and reports back with a [`UnitEvent`].

use vstd::prelude::*;
use crate::outcome::{
    announce, classified, classify, outcome_report, report, result_view, startup_announcement,
    ExecutionOutcome, LogLine, LogLineView, LogStream, OutcomeView,
};
use crate::paths::{BaseDirectories, DirectoryPair};

verus! {

/// What the caller reports to the unit, as text.
pub enum UnitEventView {
    LineWritten,
    ConfigLoaded,
    ServiceReturned { result: Result<(), Seq<char>> },
}

/// What the caller reports after it has done what the last [`UnitAction`]
/// asked for.
#[derive(Debug, PartialEq, Eq)]
pub enum UnitEvent {
    /// The line has been written.
    LineWritten,
    /// The service configuration has been loaded.
    ConfigLoaded,
    /// The service entry point has returned, with the message of its error
    /// where it failed.
    ServiceReturned { result: Result<(), String> },
}

impl View for UnitEvent {
    type V = UnitEventView;

    open spec fn view(&self) -> UnitEventView {
        match self {
            UnitEvent::LineWritten => UnitEventView::LineWritten,
            UnitEvent::ConfigLoaded => UnitEventView::ConfigLoaded,
            UnitEvent::ServiceReturned { result } => UnitEventView::ServiceReturned {
                result: result_view(*result),
            },
        }
    }
}

/// State of the unit, as text.
pub enum SupervisorView {
    Announcing,
    Configuring,
    Running,
    Finished { outcome: OutcomeView },
}

/// How far the background unit has come.
#[derive(Debug, PartialEq, Eq)]
pub enum Supervisor {
    /// The announcement of the start is being written.
    Announcing,
    /// The service configuration is being loaded.
    Configuring,
    /// The service is running.
    Running,
    /// The service has returned; the unit is done.
    Finished { outcome: ExecutionOutcome },
}

impl View for Supervisor {
    type V = SupervisorView;

    open spec fn view(&self) -> SupervisorView {
        match self {
            Supervisor::Announcing => SupervisorView::Announcing,
            Supervisor::Configuring => SupervisorView::Configuring,
            Supervisor::Running => SupervisorView::Running,
            Supervisor::Finished { outcome } => SupervisorView::Finished { outcome: outcome@ },
        }
    }
}

/// What the caller is to do next, as text.
pub enum UnitActionView {
    Write { line: LogLineView },
    LoadConfig,
    RunService,
    Nothing,
}

/// What the caller is to do next.
#[derive(Debug, PartialEq, Eq)]
pub enum UnitAction {
    /// Write this line to the log and report [`UnitEvent::LineWritten`].
    Write { line: LogLine },
    /// Load the service configuration and report [`UnitEvent::ConfigLoaded`].
    LoadConfig,
    /// Run the service entry point with the configuration until it returns,
    /// and report [`UnitEvent::ServiceReturned`].
    RunService,
    /// Nothing is left to do.
    Nothing,
}

impl View for UnitAction {
    type V = UnitActionView;

    open spec fn view(&self) -> UnitActionView {
        match self {
            UnitAction::Write { line } => UnitActionView::Write { line: line@ },
            UnitAction::LoadConfig => UnitActionView::LoadConfig,
            UnitAction::RunService => UnitActionView::RunService,
            UnitAction::Nothing => UnitActionView::Nothing,
        }
    }
}

/// The first move of a unit that was handed `dirs`: announce them.
pub open spec fn unit_begin(dirs: DirectoryPair) -> (SupervisorView, UnitActionView) {
    (SupervisorView::Announcing, UnitActionView::Write { line: startup_announcement(dirs) })
}

/// The move that answers `event` in `state`.
///
/// Each state waits for one event: the announcement written, then the
/// configuration loaded, then the service returned. The last is classified
/// and reported, whether the service failed or not. Any other event changes
/// nothing, and a finished unit asks for nothing more.
pub open spec fn unit_step(state: SupervisorView, event: UnitEventView) -> (
    SupervisorView,
    UnitActionView,
) {
    match (state, event) {
        (SupervisorView::Announcing, UnitEventView::LineWritten) => (
            SupervisorView::Configuring,
            UnitActionView::LoadConfig,
        ),
        (SupervisorView::Configuring, UnitEventView::ConfigLoaded) => (
            SupervisorView::Running,
            UnitActionView::RunService,
        ),
        (SupervisorView::Running, UnitEventView::ServiceReturned { result }) => (
            SupervisorView::Finished { outcome: classified(result) },
            UnitActionView::Write { line: outcome_report(classified(result)) },
        ),
        _ => (state, UnitActionView::Nothing),
    }
}

impl Supervisor {
    /// Begins the work of a background unit that was handed `dirs`.
    pub fn begin(dirs: &BaseDirectories) -> (first: (Supervisor, UnitAction))
        ensures
            first@ == unit_begin(dirs@),
    {
        (Supervisor::Announcing, UnitAction::Write { line: announce(dirs) })
    }

    /// Answers `event` with the next move.
    pub fn step(self, event: UnitEvent) -> (next: (Supervisor, UnitAction))
        ensures
            next@ == unit_step(self@, event@),
    {
        match (self, event) {
            (Supervisor::Announcing, UnitEvent::LineWritten) => (
                Supervisor::Configuring,
                UnitAction::LoadConfig,
            ),
            (Supervisor::Configuring, UnitEvent::ConfigLoaded) => (
                Supervisor::Running,
                UnitAction::RunService,
            ),
            (Supervisor::Running, UnitEvent::ServiceReturned { result }) => {
                let outcome = classify(result);
                let line = report(&outcome);
                (Supervisor::Finished { outcome }, UnitAction::Write { line })
            },
            (state, _) => (state, UnitAction::Nothing),
        }
    }

    /// The outcome of the service, once the unit has finished.
    pub fn outcome(&self) -> (outcome: Option<&ExecutionOutcome>)
        ensures
            match self {
                Supervisor::Finished { outcome: kept } => outcome == Some(kept),
                _ => outcome is None,
            },
    {
        match self {
            Supervisor::Finished { outcome } => Some(outcome),
            _ => None,
        }
    }
}

/// A unit that was handed `dirs` and has answered `events` one after
/// another: the state it is in, and the moves it made, the first move and
/// then one for each event.
pub open spec fn unit_run(dirs: DirectoryPair, events: Seq<UnitEventView>) -> (
    SupervisorView,
    Seq<UnitActionView>,
)
    decreases events.len(),
{
    if events.len() == 0 {
        (unit_begin(dirs).0, seq![unit_begin(dirs).1])
    } else {
        let before = unit_run(dirs, events.drop_last());
        let next = unit_step(before.0, events.last());
        (next.0, before.1.push(next.1))
    }
}

/// The moves among `moves` that ask for something, in their order.
pub open spec fn without_idle(moves: Seq<UnitActionView>) -> Seq<UnitActionView>
    decreases moves.len(),
{
    if moves.len() == 0 {
        Seq::empty()
    } else if moves.last() is Nothing {
        without_idle(moves.drop_last())
    } else {
        without_idle(moves.drop_last()).push(moves.last())
    }
}

/// What a unit that was handed `dirs` has asked for by the time it is in
/// `state`: the announcement, then the configuration, then the one run of the
/// service, then the report of its outcome.
pub open spec fn script(dirs: DirectoryPair, state: SupervisorView) -> Seq<UnitActionView> {
    let announcement = UnitActionView::Write { line: startup_announcement(dirs) };
    match state {
        SupervisorView::Announcing => seq![announcement],
        SupervisorView::Configuring => seq![announcement, UnitActionView::LoadConfig],
        SupervisorView::Running => seq![
            announcement,
            UnitActionView::LoadConfig,
            UnitActionView::RunService,
        ],
        SupervisorView::Finished { outcome } => seq![
            announcement,
            UnitActionView::LoadConfig,
            UnitActionView::RunService,
            UnitActionView::Write { line: outcome_report(outcome) },
        ],
    }
}

/// Whatever is reported to a unit and in whatever order, the moves by which
/// it asks for something are the script up to its state. So the paths are
/// announced first, the configuration is loaded before the service runs, the
/// service runs at most once, and its outcome is reported once, after the
/// run, as the outcome that the unit keeps.
pub proof fn unit_follows_script(dirs: DirectoryPair, events: Seq<UnitEventView>)
    ensures
        without_idle(unit_run(dirs, events).1) == script(dirs, unit_run(dirs, events).0),
    decreases events.len(),
{
    let moves = unit_run(dirs, events).1;
    if events.len() == 0 {
        assert(moves.drop_last() =~= Seq::empty());
        assert(without_idle(moves.drop_last()) =~= Seq::empty());
        assert(without_idle(moves) =~= script(dirs, SupervisorView::Announcing));
    } else {
        unit_follows_script(dirs, events.drop_last());
        let before = unit_run(dirs, events.drop_last());
        assert(moves.drop_last() =~= before.1);
        assert(without_idle(moves) =~= script(dirs, unit_run(dirs, events).0));
    }
}

/// Containment of a failure: when the running service returns an error, the
/// unit finishes with that failure, and its one move is to write the failure
/// and its message to the error stream. No other move exists by which the
/// failure could reach the host.
pub proof fn service_failure_is_reported(message: Seq<char>)
    ensures
        unit_step(SupervisorView::Running, UnitEventView::ServiceReturned { result: Err(message) })
            == (
            SupervisorView::Finished { outcome: OutcomeView::Failed(message) },
            UnitActionView::Write {
                line: LogLineView {
                    stream: LogStream::Error,
                    text: "ANTTP server failed: "@ + message,
                },
            },
        ),
{
}

} // verus!
