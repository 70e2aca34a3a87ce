use vaultsync::naming::{extension, file_stem, has_extension, pgp_artifact_name, vault_artifact_name};
use vaultsync::pipeline::{next_step, start_pipeline, Outcome, PipelineStep};
use vaultsync::retry::{after_attempt, first_action, RetryAction, RetryPolicy};
use vaultsync::watch::{is_eligible, on_poll, on_received, should_process, EventKind, Received, WatchStep, POLL_INTERVAL_MS};

/// Runs the retry coordinator against a stub; returns (attempts, sleeps, final action).
fn run_retry(policy: RetryPolicy, mut stub: impl FnMut(u32) -> bool) -> (u32, u32, RetryAction) {
    let mut attempts = 0;
    let mut sleeps = 0;
    let mut action = first_action(policy);
    loop {
        match action {
            RetryAction::Attempt { attempt } => {
                attempts += 1;
                action = after_attempt(policy, attempt, stub(attempt));
            }
            RetryAction::SleepThenAttempt { backoff_ms, attempt } => {
                assert_eq!(backoff_ms, policy.backoff_ms);
                sleeps += 1;
                attempts += 1;
                action = after_attempt(policy, attempt, stub(attempt));
            }
            done => return (attempts, sleeps, done),
        }
    }
}

#[test]
fn retry_stub_always_failing() {
    let policy = RetryPolicy { max_attempts: 3, backoff_ms: 10 };
    let (attempts, sleeps, end) = run_retry(policy, |_| false);
    assert_eq!((attempts, sleeps), (3, 2));
    assert_eq!(end, RetryAction::Exhausted { attempts: 3 });
}

#[test]
fn retry_stub_succeeding_second() {
    let policy = RetryPolicy { max_attempts: 3, backoff_ms: 10 };
    let (attempts, sleeps, end) = run_retry(policy, |n| n == 2);
    assert_eq!((attempts, sleeps), (2, 1));
    assert_eq!(end, RetryAction::Succeeded { attempts: 2 });
}

#[test]
fn retry_with_no_attempts_allowed() {
    let policy = RetryPolicy { max_attempts: 0, backoff_ms: 10 };
    assert_eq!(first_action(policy), RetryAction::Exhausted { attempts: 0 });
}

#[test]
fn retry_first_attempt_has_no_sleep() {
    let policy = RetryPolicy { max_attempts: 1, backoff_ms: 10 };
    assert_eq!(first_action(policy), RetryAction::Attempt { attempt: 1 });
    assert_eq!(after_attempt(policy, 1, false), RetryAction::Exhausted { attempts: 1 });
}

fn run_pipeline(name: Option<&str>, outcomes: &[bool]) -> Vec<PipelineStep> {
    let mut steps = vec![start_pipeline(name)];
    let mut i = 0;
    while !matches!(steps.last(), Some(PipelineStep::Finished(_))) {
        let next = next_step(*steps.last().unwrap(), outcomes[i]);
        steps.push(next);
        i += 1;
    }
    steps
}

#[test]
fn failed_upload_keeps_original() {
    let steps = run_pipeline(Some("doc.txt"), &[true, false]);
    assert_eq!(
        steps,
        vec![PipelineStep::Encrypt, PipelineStep::Upload, PipelineStep::Finished(Outcome::UploadFailed)]
    );
    assert!(!steps.contains(&PipelineStep::DeleteOriginal));
}

#[test]
fn successful_upload_deletes_original() {
    let steps = run_pipeline(Some("doc.txt"), &[true, true, true]);
    assert_eq!(
        steps,
        vec![
            PipelineStep::Encrypt,
            PipelineStep::Upload,
            PipelineStep::DeleteOriginal,
            PipelineStep::Finished(Outcome::Delivered)
        ]
    );
}

#[test]
fn failed_delete_is_reported_not_escalated() {
    let steps = run_pipeline(Some("doc.txt"), &[true, true, false]);
    assert_eq!(*steps.last().unwrap(), PipelineStep::Finished(Outcome::DeliveredOriginalKept));
}

#[test]
fn failed_encryption_stops_before_upload() {
    let steps = run_pipeline(Some("doc.txt"), &[false]);
    assert_eq!(steps, vec![PipelineStep::Encrypt, PipelineStep::Finished(Outcome::EncryptionFailed)]);
}

#[test]
fn artifacts_are_skipped() {
    assert_eq!(start_pipeline(Some("doc.vault")), PipelineStep::Finished(Outcome::Skipped));
    assert_eq!(start_pipeline(Some("doc.txt.pgp")), PipelineStep::Finished(Outcome::Skipped));
    assert_eq!(start_pipeline(None), PipelineStep::Finished(Outcome::Skipped));
}

#[test]
fn eligibility_rejects_own_artifacts() {
    assert!(!should_process(Some("report.vault")));
    assert!(!should_process(Some("report.pdf.pgp")));
    assert!(should_process(Some("report.pdf")));
    assert!(should_process(Some("vault")));
    assert!(should_process(Some(".vault")));
    assert!(!should_process(None));
    assert!(!should_process(Some(&vault_artifact_name("report.pdf"))));
    assert!(!should_process(Some(&pgp_artifact_name("report.pdf"))));
}

#[test]
fn eligibility_needs_relevant_regular_file_event() {
    assert!(is_eligible(Some("a.txt"), EventKind::Created, false));
    assert!(is_eligible(Some("a.txt"), EventKind::DataModified, false));
    assert!(is_eligible(Some("a.txt"), EventKind::Renamed, false));
    assert!(!is_eligible(Some("a.txt"), EventKind::Other, false));
    assert!(!is_eligible(Some("dir"), EventKind::Created, true));
    assert!(!is_eligible(Some("a.vault"), EventKind::Created, false));
}

#[test]
fn file_name_parts() {
    assert_eq!(extension("archive.tar.gz"), Some("gz"));
    assert_eq!(file_stem("archive.tar.gz"), "archive.tar");
    assert_eq!(extension(".bashrc"), None);
    assert_eq!(file_stem(".bashrc"), ".bashrc");
    assert_eq!(extension("a."), Some(""));
    assert_eq!(file_stem("a."), "a");
    assert_eq!(extension(".."), None);
    assert_eq!(file_stem("noext"), "noext");
    assert!(has_extension("x.pgp", "pgp"));
    assert!(!has_extension("x.pgpx", "pgp"));
    assert_eq!(vault_artifact_name(".bashrc"), ".bashrc.vault");
}

#[test]
fn shutdown_stops_at_next_poll() {
    assert_eq!(on_poll(false), WatchStep::Wait { timeout_ms: POLL_INTERVAL_MS });
    assert!(POLL_INTERVAL_MS <= 1500);
    assert_eq!(on_received(Received::Timeout), WatchStep::Poll);
    assert_eq!(on_poll(true), WatchStep::Stop);
}

#[test]
fn watch_loop_reactions() {
    assert_eq!(on_received(Received::Event(EventKind::Created)), WatchStep::Dispatch);
    assert_eq!(on_received(Received::Event(EventKind::Other)), WatchStep::Poll);
    assert_eq!(on_received(Received::EventError), WatchStep::Poll);
    assert_eq!(on_received(Received::Disconnected), WatchStep::Fail);
}
