//! How the background service ended, and the log lines that announce its
//! start and its end.

use vstd::prelude::*;
use crate::paths::{BaseDirectories, DirectoryPair};

verus! {

/// How the service ended, as text.
pub enum OutcomeView {
    CleanExit,
    Failed(Seq<char>),
}

/// How the background service ended: it returned without an error, or with
/// one, whose message is kept.
#[derive(Debug, PartialEq, Eq)]
pub enum ExecutionOutcome {
    CleanExit,
    Failed(String),
}

impl View for ExecutionOutcome {
    type V = OutcomeView;

    open spec fn view(&self) -> OutcomeView {
        match self {
            ExecutionOutcome::CleanExit => OutcomeView::CleanExit,
            ExecutionOutcome::Failed(message) => OutcomeView::Failed(message@),
        }
    }
}

/// The outcome that a result of the service entry point stands for.
pub open spec fn classified(result: Result<(), Seq<char>>) -> OutcomeView {
    match result {
        Ok(_) => OutcomeView::CleanExit,
        Err(message) => OutcomeView::Failed(message),
    }
}

/// What the service entry point returned, as text.
pub open spec fn result_view(result: Result<(), String>) -> Result<(), Seq<char>> {
    match result {
        Ok(_) => Ok(()),
        Err(message) => Err(message@),
    }
}

/// Classifies what the service entry point returned.
pub fn classify(result: Result<(), String>) -> (outcome: ExecutionOutcome)
    ensures
        outcome@ == classified(result_view(result)),
{
    match result {
        Ok(_) => ExecutionOutcome::CleanExit,
        Err(message) => ExecutionOutcome::Failed(message),
    }
}

/// Where a log line is written.
#[derive(Clone, Copy, Debug, PartialEq, Eq, Structural)]
pub enum LogStream {
    /// Standard output: the course of things.
    Output,
    /// Standard error: failures.
    Error,
}

/// One log line, as text.
pub struct LogLineView {
    pub stream: LogStream,
    pub text: Seq<char>,
}

/// One line for the log, without its line end, and the stream it goes to.
#[derive(Debug, PartialEq, Eq)]
pub struct LogLine {
    pub stream: LogStream,
    pub text: String,
}

impl View for LogLine {
    type V = LogLineView;

    open spec fn view(&self) -> LogLineView {
        LogLineView { stream: self.stream, text: self.text@ }
    }
}

/// The line that announces the start of the service and names both storage
/// paths.
pub open spec fn startup_announcement(dirs: DirectoryPair) -> LogLineView {
    LogLineView {
        stream: LogStream::Output,
        text: "ANTTP starting. Media: "@ + dirs.media_path + ", Cache: "@ + dirs.cache_path,
    }
}

/// The line that reports how the service ended: a clean exit on standard
/// output, a failure with its message on standard error.
pub open spec fn outcome_report(outcome: OutcomeView) -> LogLineView {
    match outcome {
        OutcomeView::CleanExit => LogLineView {
            stream: LogStream::Output,
            text: "ANTTP server exited cleanly."@,
        },
        OutcomeView::Failed(message) => LogLineView {
            stream: LogStream::Error,
            text: "ANTTP server failed: "@ + message,
        },
    }
}

/// Writes the line that announces the start of the service.
pub fn announce(dirs: &BaseDirectories) -> (line: LogLine)
    ensures
        line@ == startup_announcement(dirs@),
{
    let mut text = String::from_str("ANTTP starting. Media: ");
    text.append(dirs.media_path());
    text.append(", Cache: ");
    text.append(dirs.cache_path());
    LogLine { stream: LogStream::Output, text }
}

/// Writes the line that reports how the service ended.
pub fn report(outcome: &ExecutionOutcome) -> (line: LogLine)
    ensures
        line@ == outcome_report(outcome@),
{
    match outcome {
        ExecutionOutcome::CleanExit => LogLine {
            stream: LogStream::Output,
            text: String::from_str("ANTTP server exited cleanly."),
        },
        ExecutionOutcome::Failed(message) => {
            let mut text = String::from_str("ANTTP server failed: ");
            text.append(message.as_str());
            LogLine { stream: LogStream::Error, text }
        },
    }
}

} // verus!
