//! The storage layout: two directories below one application directory,
//! which itself lies below the per-user data root of the operating system.

use vstd::prelude::*;
use crate::fault::StartupFault;

verus! {

/// Name of the application's own directory below the data root.
pub const APP_NAMESPACE: &'static str = "autonomi-browser";

/// Name of the media directory below the application directory.
pub const MEDIA_SEGMENT: &'static str = "media";

/// Name of the cache directory below the application directory.
pub const CACHE_SEGMENT: &'static str = "cache";

/// The character that parts two segments of a path.
pub open spec fn separator() -> char {
    '/'
}

/// The path of the entry `name` directly below `base`: the two texts with
/// exactly one separator between them. An empty `base`, or one that already
/// ends in a separator, gets none added.
pub open spec fn child(base: Seq<char>, name: Seq<char>) -> Seq<char> {
    if base.len() == 0 || base.last() == separator() {
        base + name
    } else {
        base + seq![separator()] + name
    }
}

/// The application's own directory below the data root `root`.
pub open spec fn app_directory(root: Seq<char>) -> Seq<char> {
    child(root, APP_NAMESPACE@)
}

/// The two storage paths, as texts.
pub struct DirectoryPair {
    pub media_path: Seq<char>,
    pub cache_path: Seq<char>,
}

/// The storage paths that belong to the data root `root`.
pub open spec fn layout(root: Seq<char>) -> DirectoryPair {
    DirectoryPair {
        media_path: child(app_directory(root), MEDIA_SEGMENT@),
        cache_path: child(app_directory(root), CACHE_SEGMENT@),
    }
}

/// The media and cache directories of one installation.
#[derive(Debug, PartialEq, Eq)]
pub struct BaseDirectories {
    media_path: String,
    cache_path: String,
}

impl View for BaseDirectories {
    type V = DirectoryPair;

    closed spec fn view(&self) -> DirectoryPair {
        DirectoryPair { media_path: self.media_path@, cache_path: self.cache_path@ }
    }
}

impl Clone for BaseDirectories {
    fn clone(&self) -> (copy: Self)
        ensures
            copy@ == self@,
    {
        BaseDirectories {
            media_path: self.media_path.clone(),
            cache_path: self.cache_path.clone(),
        }
    }
}

impl BaseDirectories {
    /// Both paths lie below the application directory of one data root.
    pub open spec fn well_formed(&self) -> bool {
        exists|root: Seq<char>| self@ == layout(root)
    }

    /// Where media files are kept.
    pub fn media_path(&self) -> (path: &str)
        ensures
            path@ == self@.media_path,
    {
        self.media_path.as_str()
    }

    /// Where cached data is kept.
    pub fn cache_path(&self) -> (path: &str)
        ensures
            path@ == self@.cache_path,
    {
        self.cache_path.as_str()
    }
}

/// Adjoins `name` to `base` as one further path segment.
pub fn child_path(base: &str, name: &str) -> (joined: String)
    ensures
        joined@ == child(base@, name@),
{
    let count: usize = base.unicode_len();
    let mut joined = String::from_str(base);
    if count > 0 && base.get_char(count - 1) != '/' {
        proof {
            reveal_strlit("/");
            assert("/"@ =~= seq![separator()]);
        }
        joined.append("/");
    }
    joined.append(name);
    joined
}

/// Lays out the storage paths below a data root that the caller has looked
/// up. A missing root is the only fault.
pub fn resolve_from(root: Option<String>) -> (resolved: Result<BaseDirectories, StartupFault>)
    ensures
        match resolved {
            Ok(dirs) => root is Some && dirs@ == layout(root->Some_0@) && dirs.well_formed(),
            Err(fault) => root is None && fault == StartupFault::DataRootUnavailable,
        },
{
    match root {
        Some(root) => {
            let app = child_path(root.as_str(), APP_NAMESPACE);
            let media_path = child_path(app.as_str(), MEDIA_SEGMENT);
            let cache_path = child_path(app.as_str(), CACHE_SEGMENT);
            let dirs = BaseDirectories { media_path, cache_path };
            Ok(dirs)
        },
        None => Err(StartupFault::DataRootUnavailable),
    }
}

/// The per-user data root that the operating system names, as text.
///
/// Calls `dirs::data_dir` and turns the path it returns into a `String`,
/// replacing what is not valid Unicode. The answer depends on the platform and
/// on the environment of the process, so nothing is claimed of it: it may be
/// missing, and when present it may be any text.
#[verifier::external_body]
fn user_data_root() -> (root: Option<String>) {
    dirs::data_dir().map(|path| path.to_string_lossy().into_owned())
}

/// Looks up the data root of the operating system and lays out the storage
/// paths below it. Whatever the lookup gives, the outcome is either a
/// well-formed pair of paths or the fault of a missing root.
pub fn resolve() -> (resolved: Result<BaseDirectories, StartupFault>)
    ensures
        match resolved {
            Ok(dirs) => dirs.well_formed(),
            Err(fault) => fault == StartupFault::DataRootUnavailable,
        },
{
    resolve_from(user_data_root())
}

/// Position of the last separator in `path`, or -1 where it has none.
pub open spec fn last_separator(path: Seq<char>) -> int
    decreases path.len(),
{
    if path.len() == 0 {
        -1
    } else if path.last() == separator() {
        path.len() - 1
    } else {
        last_separator(path.drop_last())
    }
}

/// What stands before the last separator of `path`; empty where it has none.
pub open spec fn parent(path: Seq<char>) -> Seq<char> {
    if last_separator(path) < 0 {
        Seq::empty()
    } else {
        path.subrange(0, last_separator(path))
    }
}

/// What stands behind the last separator of `path`; all of it where it has
/// none.
pub open spec fn final_segment(path: Seq<char>) -> Seq<char> {
    path.subrange(last_separator(path) + 1, path.len() as int)
}

/// `name` can stand as one segment of a path: it holds no separator.
pub open spec fn separator_free(name: Seq<char>) -> bool {
    forall|i: int| 0 <= i < name.len() ==> name[i] != separator()
}

/// Below a base that does not end in a separator, the separator that
/// `child` adds is the last one of the result.
proof fn lemma_last_separator_of_child(base: Seq<char>, name: Seq<char>)
    requires
        base.len() > 0,
        base.last() != separator(),
        separator_free(name),
    ensures
        last_separator(child(base, name)) == base.len(),
    decreases name.len(),
{
    if name.len() > 0 {
        assert(child(base, name).drop_last() =~= child(base, name.drop_last()));
        lemma_last_separator_of_child(base, name.drop_last());
    }
}

/// A segment adjoined to a base that does not end in a separator can be
/// split off again: the parent of the result is the base, its final segment
/// the name.
pub proof fn lemma_child_splits(base: Seq<char>, name: Seq<char>)
    requires
        base.len() > 0,
        base.last() != separator(),
        separator_free(name),
    ensures
        parent(child(base, name)) == base,
        final_segment(child(base, name)) == name,
{
    lemma_last_separator_of_child(base, name);
    assert(parent(child(base, name)) =~= base);
    assert(final_segment(child(base, name)) =~= name);
}

/// The application directory is never empty and never ends in a separator,
/// whatever the data root.
proof fn lemma_app_directory_is_open(root: Seq<char>)
    ensures
        app_directory(root).len() > 0,
        app_directory(root).last() != separator(),
{
    reveal_strlit("autonomi-browser");
    assert(APP_NAMESPACE@[15] == 'r');
}

/// Path scoping: the media and the cache path lie in the same directory, the
/// application directory of the root, and differ only in their final
/// segment, `media` for the one and `cache` for the other.
pub proof fn paths_share_parent(root: Seq<char>)
    ensures
        parent(layout(root).media_path) == app_directory(root),
        parent(layout(root).cache_path) == app_directory(root),
        final_segment(layout(root).media_path) == MEDIA_SEGMENT@,
        final_segment(layout(root).cache_path) == CACHE_SEGMENT@,
        layout(root).media_path != layout(root).cache_path,
        root.is_prefix_of(app_directory(root)),
        app_directory(root).is_prefix_of(layout(root).media_path),
        app_directory(root).is_prefix_of(layout(root).cache_path),
{
    reveal_strlit("media");
    reveal_strlit("cache");
    lemma_app_directory_is_open(root);
    lemma_child_splits(app_directory(root), MEDIA_SEGMENT@);
    lemma_child_splits(app_directory(root), CACHE_SEGMENT@);
    assert(MEDIA_SEGMENT@[0] == 'm');
    assert(CACHE_SEGMENT@[0] == 'c');
}

/// Every well-formed pair of storage paths is scoped in that way: one
/// parent directory for both, `media` and `cache` as the final segments.
pub proof fn well_formed_paths_are_scoped(dirs: BaseDirectories)
    requires
        dirs.well_formed(),
    ensures
        parent(dirs@.media_path) == parent(dirs@.cache_path),
        final_segment(dirs@.media_path) == MEDIA_SEGMENT@,
        final_segment(dirs@.cache_path) == CACHE_SEGMENT@,
        dirs@.media_path == child(parent(dirs@.media_path), MEDIA_SEGMENT@),
        dirs@.cache_path == child(parent(dirs@.cache_path), CACHE_SEGMENT@),
{
    let root = choose|root: Seq<char>| dirs@ == layout(root);
    paths_share_parent(root);
}

} // verus!
