use autonomi_browser::outcome::{announce, classify, report, ExecutionOutcome, LogLine, LogStream};
use autonomi_browser::paths::resolve_from;

#[test]
fn classify_clean_exit() {
    assert_eq!(classify(Ok(())), ExecutionOutcome::CleanExit);
}

#[test]
fn classify_failure_keeps_the_message() {
    assert_eq!(
        classify(Err(String::from("address already in use"))),
        ExecutionOutcome::Failed(String::from("address already in use"))
    );
}

#[test]
fn classify_failure_with_empty_message() {
    assert_eq!(classify(Err(String::new())), ExecutionOutcome::Failed(String::new()));
}

#[test]
fn announcement_names_both_paths() {
    let dirs = resolve_from(Some(String::from("/home/alice/.local/share"))).unwrap();
    assert_eq!(
        announce(&dirs),
        LogLine {
            stream: LogStream::Output,
            text: String::from(
                "ANTTP starting. Media: /home/alice/.local/share/autonomi-browser/media, Cache: /home/alice/.local/share/autonomi-browser/cache"
            ),
        }
    );
}

#[test]
fn report_of_clean_exit() {
    assert_eq!(
        report(&ExecutionOutcome::CleanExit),
        LogLine { stream: LogStream::Output, text: String::from("ANTTP server exited cleanly.") }
    );
}

#[test]
fn report_of_failure() {
    assert_eq!(
        report(&ExecutionOutcome::Failed(String::from("bind failed"))),
        LogLine { stream: LogStream::Error, text: String::from("ANTTP server failed: bind failed") }
    );
}

#[test]
fn report_of_failure_without_message() {
    assert_eq!(
        report(&ExecutionOutcome::Failed(String::new())),
        LogLine { stream: LogStream::Error, text: String::from("ANTTP server failed: ") }
    );
}
