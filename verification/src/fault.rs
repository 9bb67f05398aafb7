//! The faults that end the start of the host.

use vstd::prelude::*;

verus! {

/// Why the host cannot start.
#[derive(Clone, Copy, Debug, PartialEq, Eq, Structural)]
pub enum StartupFault {
    /// The operating system names no per-user data root.
    DataRootUnavailable,
    /// The media directory could not be made.
    MediaDirectory,
    /// The cache directory could not be made.
    CacheDirectory,
}

/// The words in which a fault is made known.
pub open spec fn fault_message(fault: StartupFault) -> Seq<char> {
    match fault {
        StartupFault::DataRootUnavailable => "Cannot find system data dir"@,
        StartupFault::MediaDirectory => "Failed to create media dir"@,
        StartupFault::CacheDirectory => "Failed to create cache dir"@,
    }
}

impl StartupFault {
    /// The words in which this fault is made known when the host gives up.
    pub fn message(&self) -> (text: &'static str)
        ensures
            text@ == fault_message(*self),
    {
        match self {
            StartupFault::DataRootUnavailable => "Cannot find system data dir",
            StartupFault::MediaDirectory => "Failed to create media dir",
            StartupFault::CacheDirectory => "Failed to create cache dir",
        }
    }
}

} // verus!
