//! The host's start-up hook as a state machine.
//!
//! The hook resolves the storage paths, asks for the media directory, then
//! for the cache directory, and only when both exist hands the paths over for
//! the launch of the background service. A missing data root or a directory
//! that cannot be made ends the start-up with a fault. The machine decides;
//! its caller makes the directories and reports back with a [`BootEvent`].

use vstd::prelude::*;
use crate::fault::StartupFault;
use crate::paths::{layout, resolve, resolve_from, BaseDirectories, DirectoryPair};

verus! {

/// What the caller reports after it tried to make sure that the directory
/// named in the last [`BootAction::EnsureDirectory`] exists.
#[derive(Clone, Copy, Debug, PartialEq, Eq, Structural)]
pub enum BootEvent {
    /// The directory exists now, newly made or found in place.
    DirectoryReady,
    /// The directory does not exist and could not be made.
    DirectoryFailed,
}

/// State of the start-up, as text.
pub enum BootstrapView {
    EnsuringMedia { dirs: DirectoryPair },
    EnsuringCache { dirs: DirectoryPair },
    Launched,
    Aborted { fault: StartupFault },
}

/// What the caller is to do next, as text.
pub enum BootActionView {
    EnsureDirectory { path: Seq<char> },
    Launch { dirs: DirectoryPair },
    Abort { fault: StartupFault },
    Nothing,
}

/// How far the start-up has come.
#[derive(Debug, PartialEq, Eq)]
pub enum Bootstrap {
    /// The media directory has been asked for.
    EnsuringMedia { dirs: BaseDirectories },
    /// The media directory exists; the cache directory has been asked for.
    EnsuringCache { dirs: BaseDirectories },
    /// Both directories exist and the launch has been handed out. The hook
    /// is done.
    Launched,
    /// The start-up was given up.
    Aborted { fault: StartupFault },
}

/// What the caller is to do next.
#[derive(Debug, PartialEq, Eq)]
pub enum BootAction {
    /// Make sure that this directory exists, with all that lies above it,
    /// and report a [`BootEvent`].
    EnsureDirectory { path: String },
    /// Start the background unit with these paths, and return from the hook.
    Launch { dirs: BaseDirectories },
    /// Give up the start of the host.
    Abort { fault: StartupFault },
    /// Nothing is left to do.
    Nothing,
}

impl View for Bootstrap {
    type V = BootstrapView;

    open spec fn view(&self) -> BootstrapView {
        match self {
            Bootstrap::EnsuringMedia { dirs } => BootstrapView::EnsuringMedia { dirs: dirs@ },
            Bootstrap::EnsuringCache { dirs } => BootstrapView::EnsuringCache { dirs: dirs@ },
            Bootstrap::Launched => BootstrapView::Launched,
            Bootstrap::Aborted { fault } => BootstrapView::Aborted { fault: *fault },
        }
    }
}

impl View for BootAction {
    type V = BootActionView;

    open spec fn view(&self) -> BootActionView {
        match self {
            BootAction::EnsureDirectory { path } => BootActionView::EnsureDirectory { path: path@ },
            BootAction::Launch { dirs } => BootActionView::Launch { dirs: dirs@ },
            BootAction::Abort { fault } => BootActionView::Abort { fault: *fault },
            BootAction::Nothing => BootActionView::Nothing,
        }
    }
}

/// The first move once the paths are resolved: ask for the media directory,
/// or give up where resolving failed.
pub open spec fn boot_begin_from(resolved: Result<DirectoryPair, StartupFault>) -> (
    BootstrapView,
    BootActionView,
) {
    match resolved {
        Ok(dirs) => (
            BootstrapView::EnsuringMedia { dirs },
            BootActionView::EnsureDirectory { path: dirs.media_path },
        ),
        Err(fault) => (BootstrapView::Aborted { fault }, BootActionView::Abort { fault }),
    }
}

/// The first move for a looked-up data root.
pub open spec fn boot_begin(root: Option<Seq<char>>) -> (BootstrapView, BootActionView) {
    match root {
        Some(root) => boot_begin_from(Ok(layout(root))),
        None => boot_begin_from(Err(StartupFault::DataRootUnavailable)),
    }
}

/// The move that answers `event` in `state`.
///
/// A directory that is ready leads on: from the media directory to the cache
/// directory, from the cache directory to the launch. A directory that failed
/// ends the start-up with the fault that names it. Once launched or given up,
/// the machine stays as it is and asks for nothing.
pub open spec fn boot_step(state: BootstrapView, event: BootEvent) -> (
    BootstrapView,
    BootActionView,
) {
    match (state, event) {
        (BootstrapView::EnsuringMedia { dirs }, BootEvent::DirectoryReady) => (
            BootstrapView::EnsuringCache { dirs },
            BootActionView::EnsureDirectory { path: dirs.cache_path },
        ),
        (BootstrapView::EnsuringMedia { dirs }, BootEvent::DirectoryFailed) => (
            BootstrapView::Aborted { fault: StartupFault::MediaDirectory },
            BootActionView::Abort { fault: StartupFault::MediaDirectory },
        ),
        (BootstrapView::EnsuringCache { dirs }, BootEvent::DirectoryReady) => (
            BootstrapView::Launched,
            BootActionView::Launch { dirs },
        ),
        (BootstrapView::EnsuringCache { dirs }, BootEvent::DirectoryFailed) => (
            BootstrapView::Aborted { fault: StartupFault::CacheDirectory },
            BootActionView::Abort { fault: StartupFault::CacheDirectory },
        ),
        (BootstrapView::Launched, _) => (BootstrapView::Launched, BootActionView::Nothing),
        (BootstrapView::Aborted { fault }, _) => (
            BootstrapView::Aborted { fault },
            BootActionView::Nothing,
        ),
    }
}

impl BootAction {
    /// The paths that a launch hands out are well formed.
    pub open spec fn well_formed(&self) -> bool {
        match self {
            BootAction::Launch { dirs } => dirs.well_formed(),
            _ => true,
        }
    }
}

impl Bootstrap {
    /// The paths that the start-up works on are well formed.
    pub open spec fn well_formed(&self) -> bool {
        match self {
            Bootstrap::EnsuringMedia { dirs } => dirs.well_formed(),
            Bootstrap::EnsuringCache { dirs } => dirs.well_formed(),
            _ => true,
        }
    }

    fn begin_from(resolved: Result<BaseDirectories, StartupFault>) -> (first: (
        Bootstrap,
        BootAction,
    ))
        requires
            resolved is Ok ==> resolved->Ok_0.well_formed(),
        ensures
            first@ == boot_begin_from(
                match resolved {
                    Ok(dirs) => Ok(dirs@),
                    Err(fault) => Err(fault),
                },
            ),
            first.0.well_formed(),
    {
        match resolved {
            Ok(dirs) => {
                let path = String::from_str(dirs.media_path());
                (Bootstrap::EnsuringMedia { dirs }, BootAction::EnsureDirectory { path })
            },
            Err(fault) => (Bootstrap::Aborted { fault }, BootAction::Abort { fault }),
        }
    }

    /// Begins the start-up below a data root that the caller has looked up.
    pub fn begin_with(root: Option<String>) -> (first: (Bootstrap, BootAction))
        ensures
            first@ == boot_begin(root.deep_view()),
            first.0.well_formed(),
    {
        Self::begin_from(resolve_from(root))
    }

    /// Begins the start-up below the data root that the operating system
    /// names. Whatever the lookup gives, the first move is the one that
    /// belongs to some looked-up root.
    pub fn begin() -> (first: (Bootstrap, BootAction))
        ensures
            exists|root: Option<Seq<char>>| first@ == boot_begin(root),
            first.0.well_formed(),
    {
        let resolved = resolve();
        proof {
            if resolved is Ok {
                let dirs = resolved->Ok_0@;
                let root = choose|root: Seq<char>| dirs == layout(root);
                assert(boot_begin_from(Ok(dirs)) == boot_begin(Some(root)));
            } else {
                assert(boot_begin_from(Err(resolved->Err_0)) == boot_begin(None));
            }
        }
        Self::begin_from(resolved)
    }

    /// Answers `event` with the next move.
    pub fn step(self, event: BootEvent) -> (next: (Bootstrap, BootAction))
        ensures
            next@ == boot_step(self@, event),
            self.well_formed() ==> next.0.well_formed() && next.1.well_formed(),
    {
        match self {
            Bootstrap::EnsuringMedia { dirs } => match event {
                BootEvent::DirectoryReady => {
                    let path = String::from_str(dirs.cache_path());
                    (Bootstrap::EnsuringCache { dirs }, BootAction::EnsureDirectory { path })
                },
                BootEvent::DirectoryFailed => (
                    Bootstrap::Aborted { fault: StartupFault::MediaDirectory },
                    BootAction::Abort { fault: StartupFault::MediaDirectory },
                ),
            },
            Bootstrap::EnsuringCache { dirs } => match event {
                BootEvent::DirectoryReady => (Bootstrap::Launched, BootAction::Launch { dirs }),
                BootEvent::DirectoryFailed => (
                    Bootstrap::Aborted { fault: StartupFault::CacheDirectory },
                    BootAction::Abort { fault: StartupFault::CacheDirectory },
                ),
            },
            Bootstrap::Launched => (Bootstrap::Launched, BootAction::Nothing),
            Bootstrap::Aborted { fault } => (Bootstrap::Aborted { fault }, BootAction::Nothing),
        }
    }
}

/// A start-up below `root` that has answered `events` one after another: the
/// state it is in, and the moves it made, the first move and then one for
/// each event.
pub open spec fn boot_run(root: Option<Seq<char>>, events: Seq<BootEvent>) -> (
    BootstrapView,
    Seq<BootActionView>,
)
    decreases events.len(),
{
    if events.len() == 0 {
        (boot_begin(root).0, seq![boot_begin(root).1])
    } else {
        let before = boot_run(root, events.drop_last());
        let next = boot_step(before.0, events.last());
        (next.0, before.1.push(next.1))
    }
}

/// The move at place `i` of a run, read off the root and the first two
/// events.
spec fn move_at(root: Option<Seq<char>>, events: Seq<BootEvent>, i: int) -> BootActionView {
    if i == 0 {
        boot_begin(root).1
    } else if root is None {
        BootActionView::Nothing
    } else if i == 1 {
        if events[0] == BootEvent::DirectoryReady {
            BootActionView::EnsureDirectory { path: layout(root->Some_0).cache_path }
        } else {
            BootActionView::Abort { fault: StartupFault::MediaDirectory }
        }
    } else if i == 2 && events[0] == BootEvent::DirectoryReady {
        if events[1] == BootEvent::DirectoryReady {
            BootActionView::Launch { dirs: layout(root->Some_0) }
        } else {
            BootActionView::Abort { fault: StartupFault::CacheDirectory }
        }
    } else {
        BootActionView::Nothing
    }
}

/// The state of a run, read off the root and the first two events.
spec fn state_after(root: Option<Seq<char>>, events: Seq<BootEvent>) -> BootstrapView {
    if root is None {
        BootstrapView::Aborted { fault: StartupFault::DataRootUnavailable }
    } else if events.len() == 0 {
        BootstrapView::EnsuringMedia { dirs: layout(root->Some_0) }
    } else if events[0] == BootEvent::DirectoryFailed {
        BootstrapView::Aborted { fault: StartupFault::MediaDirectory }
    } else if events.len() == 1 {
        BootstrapView::EnsuringCache { dirs: layout(root->Some_0) }
    } else if events[1] == BootEvent::DirectoryFailed {
        BootstrapView::Aborted { fault: StartupFault::CacheDirectory }
    } else {
        BootstrapView::Launched
    }
}

/// A run is what `state_after` and `move_at` say.
proof fn lemma_boot_run(root: Option<Seq<char>>, events: Seq<BootEvent>)
    ensures
        boot_run(root, events).0 == state_after(root, events),
        boot_run(root, events).1.len() == events.len() + 1,
        forall|i: int|
            0 <= i <= events.len() ==> #[trigger] boot_run(root, events).1[i] == move_at(
                root,
                events,
                i,
            ),
    decreases events.len(),
{
    if events.len() > 0 {
        let earlier = events.drop_last();
        lemma_boot_run(root, earlier);
        assert forall|i: int| 0 <= i <= events.len() implies boot_run(root, events).1[i]
            == move_at(root, events, i) by {
            if i < events.len() {
                assert(boot_run(root, events).1[i] == boot_run(root, earlier).1[i]);
            }
        }
    }
}

/// A start-up is launched exactly where there is a data root and the first
/// two reports are of a directory that is ready.
pub proof fn launched_after_two_ready(root: Option<Seq<char>>, events: Seq<BootEvent>)
    ensures
        boot_run(root, events).0 == BootstrapView::Launched <==> {
            &&& root is Some
            &&& events.len() >= 2
            &&& events[0] == BootEvent::DirectoryReady
            &&& events[1] == BootEvent::DirectoryReady
        },
{
    lemma_boot_run(root, events);
}

/// Ordering: a launch is handed out only in answer to the report that the
/// cache directory is ready, and the cache directory is asked for only in
/// answer to the report that the media directory is ready. So wherever a run
/// holds a launch, it is the third move, both directories of the launched
/// paths were asked for before it, and each was reported ready.
pub proof fn launch_follows_both_directories(
    root: Option<Seq<char>>,
    events: Seq<BootEvent>,
    i: int,
)
    requires
        0 <= i <= events.len(),
        boot_run(root, events).1[i] is Launch,
    ensures
        root is Some,
        i == 2,
        boot_run(root, events).1[0] == (BootActionView::EnsureDirectory {
            path: layout(root->Some_0).media_path,
        }),
        events[0] == BootEvent::DirectoryReady,
        boot_run(root, events).1[1] == (BootActionView::EnsureDirectory {
            path: layout(root->Some_0).cache_path,
        }),
        events[1] == BootEvent::DirectoryReady,
        boot_run(root, events).1[2] == (BootActionView::Launch { dirs: layout(root->Some_0) }),
{
    lemma_boot_run(root, events);
}

/// Fault propagation: when a directory that the start-up asked for is
/// reported as failed, the answer is the abort that names it, the start-up
/// stays given up whatever is reported afterwards, and no move of the run is
/// a launch.
pub proof fn failed_directory_aborts(root: Seq<char>, events: Seq<BootEvent>, k: int)
    requires
        0 <= k < events.len(),
        k < 2,
        events[k] == BootEvent::DirectoryFailed,
        forall|j: int| 0 <= j < k ==> events[j] == BootEvent::DirectoryReady,
    ensures
        ({
            let fault = if k == 0 {
                StartupFault::MediaDirectory
            } else {
                StartupFault::CacheDirectory
            };
            &&& boot_run(Some(root), events).1[k + 1] == (BootActionView::Abort { fault })
            &&& boot_run(Some(root), events).0 == (BootstrapView::Aborted { fault })
        }),
        forall|i: int| 0 <= i <= events.len() ==> !(boot_run(Some(root), events).1[i] is Launch),
{
    lemma_boot_run(Some(root), events);
}

/// The application directory is never asked for by itself: whatever
/// directory a run asks for is the media or the cache directory of the
/// root's layout. The application directory comes to be as the one above
/// them.
pub proof fn only_storage_directories_are_asked_for(
    root: Option<Seq<char>>,
    events: Seq<BootEvent>,
    i: int,
)
    requires
        0 <= i <= events.len(),
        boot_run(root, events).1[i] is EnsureDirectory,
    ensures
        root is Some,
        i == 0 || i == 1,
        i == 0 ==> boot_run(root, events).1[i]->path == layout(root->Some_0).media_path,
        i == 1 ==> boot_run(root, events).1[i]->path == layout(root->Some_0).cache_path,
{
    lemma_boot_run(root, events);
}

/// Without a data root the start-up is given up at once: the first move is
/// the abort, and no move of the run is a launch or asks for a directory.
pub proof fn missing_root_aborts(events: Seq<BootEvent>)
    ensures
        boot_run(None, events).1[0] == (BootActionView::Abort {
            fault: StartupFault::DataRootUnavailable,
        }),
        boot_run(None, events).0 == (BootstrapView::Aborted {
            fault: StartupFault::DataRootUnavailable,
        }),
        forall|i: int|
            0 <= i <= events.len() ==> !(boot_run(None, events).1[i] is Launch) && !(boot_run(
                None,
                events,
            ).1[i] is EnsureDirectory),
{
    lemma_boot_run(None, events);
}

/// Repeated start-up: below one data root, every start-up in which both
/// directories are reported ready ends launched, without a fault, and hands
/// out the same two paths, those of the root's layout.
pub proof fn repeated_start_agrees(
    root: Seq<char>,
    first: Seq<BootEvent>,
    second: Seq<BootEvent>,
)
    requires
        first.len() >= 2,
        first[0] == BootEvent::DirectoryReady,
        first[1] == BootEvent::DirectoryReady,
        second.len() >= 2,
        second[0] == BootEvent::DirectoryReady,
        second[1] == BootEvent::DirectoryReady,
    ensures
        boot_run(Some(root), first).0 == BootstrapView::Launched,
        boot_run(Some(root), second).0 == BootstrapView::Launched,
        boot_run(Some(root), first).1[2] == (BootActionView::Launch { dirs: layout(root) }),
        boot_run(Some(root), second).1[2] == boot_run(Some(root), first).1[2],
        forall|i: int|
            0 <= i <= first.len() ==> !(boot_run(Some(root), first).1[i] is Abort),
        forall|i: int|
            0 <= i <= second.len() ==> !(boot_run(Some(root), second).1[i] is Abort),
{
    lemma_boot_run(Some(root), first);
    lemma_boot_run(Some(root), second);
}

} // verus!
