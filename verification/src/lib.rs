//! Start-up logic of the Autonomi browser shell.
//!
//! The shell needs two storage directories before its background service may
//! run, and it must keep running when that service fails. This crate holds the
//! decisions behind that: where the directories lie, in which order the host
//! asks for them, when the service may be launched, and how the end of the
//! service is reported. Whoever embeds the crate performs the effects (making
//! directories, spawning the background unit, running the service, writing log
//! lines) and reports back what happened.

pub mod bootstrap;
pub mod fault;
pub mod outcome;
pub mod paths;
pub mod supervisor;
pub mod system;
