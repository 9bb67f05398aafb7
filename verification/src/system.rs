//! The host and the background unit side by side.
//!
//! The host's start-up and the background unit are two machines that share
//! nothing but the paths handed over at the launch. This module puts them
//! next to each other, each event addressed to one of the two, and states
//! what holds of every run of the pair: the unit exists only once the host
//! has launched it, nothing that happens in the unit reaches the host, and
//! the host is done before the service has run.

use vstd::prelude::*;
use crate::bootstrap::{boot_begin, boot_run, boot_step, BootActionView, BootEvent, BootstrapView};
use crate::paths::layout;
use crate::supervisor::{unit_begin, unit_step, SupervisorView, UnitEventView};

verus! {

/// An event of the pair, addressed to the machine it is reported to.
pub enum SystemEvent {
    Host(BootEvent),
    Unit(UnitEventView),
}

/// The state of the pair: that of the host's start-up, and that of the
/// background unit once there is one.
pub struct SystemView {
    pub host: BootstrapView,
    pub unit: Option<SupervisorView>,
}

/// The pair when the start-up has begun below `root`: no unit yet.
pub open spec fn system_begin(root: Option<Seq<char>>) -> SystemView {
    SystemView { host: boot_begin(root).0, unit: None }
}

/// The pair after `event`. An event of the host moves the host, and where
/// the host's answer is the launch, the unit begins with the launched paths.
/// An event of the unit moves the unit, if there is one, and leaves the host
/// as it is.
pub open spec fn system_step(system: SystemView, event: SystemEvent) -> SystemView {
    match event {
        SystemEvent::Host(event) => {
            let next = boot_step(system.host, event);
            SystemView {
                host: next.0,
                unit: match next.1 {
                    BootActionView::Launch { dirs } => Some(unit_begin(dirs).0),
                    _ => system.unit,
                },
            }
        },
        SystemEvent::Unit(event) => SystemView {
            host: system.host,
            unit: match system.unit {
                Some(unit) => Some(unit_step(unit, event).0),
                None => None,
            },
        },
    }
}

/// The pair after the start-up has begun below `root` and `events` have
/// happened one after another.
pub open spec fn system_run(root: Option<Seq<char>>, events: Seq<SystemEvent>) -> SystemView
    decreases events.len(),
{
    if events.len() == 0 {
        system_begin(root)
    } else {
        system_step(system_run(root, events.drop_last()), events.last())
    }
}

/// The events among `events` that are addressed to the host, in their order.
pub open spec fn host_events(events: Seq<SystemEvent>) -> Seq<BootEvent>
    decreases events.len(),
{
    if events.len() == 0 {
        Seq::empty()
    } else {
        match events.last() {
            SystemEvent::Host(event) => host_events(events.drop_last()).push(event),
            SystemEvent::Unit(_) => host_events(events.drop_last()),
        }
    }
}

/// Isolation: the host is where its own events alone would have brought it.
/// Whatever is reported to the unit, a failure of the service included, the
/// state of the host's start-up is the same as in the run without those
/// reports.
pub proof fn unit_events_leave_host_alone(root: Option<Seq<char>>, events: Seq<SystemEvent>)
    ensures
        system_run(root, events).host == boot_run(root, host_events(events)).0,
    decreases events.len(),
{
    if events.len() > 0 {
        unit_events_leave_host_alone(root, events.drop_last());
        match events.last() {
            SystemEvent::Host(event) => {
                assert(host_events(events).drop_last() =~= host_events(events.drop_last()));
            },
            SystemEvent::Unit(_) => {},
        }
    }
}

/// Ordering: there is a background unit, and with it anything that could
/// run the service, only where the host has launched: where the media and
/// then the cache directory were asked for and reported ready.
pub proof fn unit_exists_only_after_launch(root: Option<Seq<char>>, events: Seq<SystemEvent>)
    ensures
        system_run(root, events).unit is Some <==> system_run(root, events).host
            == BootstrapView::Launched,
        system_run(root, events).unit is Some ==> {
            &&& root is Some
            &&& host_events(events).len() >= 2
            &&& host_events(events)[0] == BootEvent::DirectoryReady
            &&& host_events(events)[1] == BootEvent::DirectoryReady
        },
    decreases events.len(),
{
    if events.len() > 0 {
        unit_exists_only_after_launch(root, events.drop_last());
    }
    unit_events_leave_host_alone(root, events);
    crate::bootstrap::launched_after_two_ready(root, host_events(events));
}

/// The host does not wait for the service: once both directories are
/// reported ready the start-up is done, while the unit has only begun to
/// announce itself and the service has not run yet. What the unit reports
/// later, when the service returns, finds the host still launched.
pub proof fn host_is_done_before_service(root: Seq<char>, later: Seq<UnitEventView>)
    ensures
        ({
            let launched = system_run(
                Some(root),
                seq![
                    SystemEvent::Host(BootEvent::DirectoryReady),
                    SystemEvent::Host(BootEvent::DirectoryReady),
                ],
            );
            &&& launched.host == BootstrapView::Launched
            &&& launched.unit == Some(SupervisorView::Announcing)
            &&& system_run_unit(launched, later).host == BootstrapView::Launched
        }),
{
    let ready = SystemEvent::Host(BootEvent::DirectoryReady);
    let events = seq![ready, ready];
    assert(events.drop_last() =~= seq![ready]);
    assert(seq![ready].drop_last() =~= Seq::<SystemEvent>::empty());
    assert(system_run(Some(root), Seq::<SystemEvent>::empty()) == system_begin(Some(root)));
    assert(system_run(Some(root), seq![ready]).host == (BootstrapView::EnsuringCache {
        dirs: layout(root),
    }));
    lemma_unit_steps_keep_host(system_run(Some(root), events), later);
}

/// The pair after the events `events` of the unit, from `system` on.
pub open spec fn system_run_unit(system: SystemView, events: Seq<UnitEventView>) -> SystemView
    decreases events.len(),
{
    if events.len() == 0 {
        system
    } else {
        system_step(system_run_unit(system, events.drop_last()), SystemEvent::Unit(events.last()))
    }
}

proof fn lemma_unit_steps_keep_host(system: SystemView, events: Seq<UnitEventView>)
    ensures
        system_run_unit(system, events).host == system.host,
    decreases events.len(),
{
    if events.len() > 0 {
        lemma_unit_steps_keep_host(system, events.drop_last());
    }
}

} // verus!
