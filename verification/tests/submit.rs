//! Batch submission: URLs, the batch identifier, and the bounded polling.

use grid_core::bootstrap::SCABBARD_SUBMISSION_WAIT_SECS;
use grid_core::submit::extract_batch_id;
use grid_core::submit::poll_step;
use grid_core::submit::status_url;
use grid_core::submit::submission_outcome;
use grid_core::submit::BatchStatus;
use grid_core::submit::ReqwestClient;
use grid_core::submit::SubmissionOutcome;
use grid_core::text::KeyValue;

fn status(id: &str, status: &str, messages: &[&str]) -> BatchStatus {
    BatchStatus {
        id: id.to_string(),
        invalid_transactions: messages
            .iter()
            .map(|m| {
                vec![KeyValue { key: "message".to_string(), value: m.to_string() }]
            })
            .collect(),
        status: status.to_string(),
    }
}

#[test]
fn batches_url_carries_the_service_id() {
    let client = ReqwestClient::new("http://gridd:8080".to_string());
    assert_eq!(client.batches_url(None), "http://gridd:8080/batches");
    assert_eq!(
        client.batches_url(Some("svc-1")),
        "http://gridd:8080/batches?service_id=svc-1"
    );
}

#[test]
fn status_url_carries_wait_and_service_id() {
    let link = "http://gridd:8080/batch_statuses?id=abc";
    assert_eq!(status_url(link, 10, None), "http://gridd:8080/batch_statuses?id=abc&wait=10");
    assert_eq!(
        status_url(link, 7, Some("svc-1")),
        "http://gridd:8080/batch_statuses?id=abc&wait=7&service_id=svc-1"
    );
}

#[test]
fn batch_id_is_the_first_query_value() {
    assert_eq!(
        extract_batch_id("http://gridd/batch_statuses?id=abc123").as_deref(),
        Some("abc123")
    );
    assert_eq!(
        extract_batch_id("http://gridd/batch_statuses?id=abc&x=1").as_deref(),
        Some("abc&x"),
        "the identifier runs to the next `=`, as a split on `=` yields"
    );
    assert_eq!(extract_batch_id("http://gridd/batch_statuses").as_deref(), None);
    assert_eq!(extract_batch_id("http://gridd/bs?noequals").as_deref(), None);
}

#[test]
fn invalid_transaction_is_logged_not_fatal() {
    let statuses = vec![
        status("t1", "Invalid", &["bad payload"]),
        status("t2", "Valid", &[]),
    ];
    let mut wait: u64 = SCABBARD_SUBMISSION_WAIT_SECS;
    let outcome = poll_step(&mut wait, &statuses, 1);
    assert_eq!(outcome.invalid_messages, vec!["bad payload".to_string()]);
    assert!(!outcome.all_valid);
    assert!(outcome.finished, "no transaction is pending, so the poll ends");
    assert_eq!(wait, SCABBARD_SUBMISSION_WAIT_SECS);
}

#[test]
fn invalid_record_without_message_gets_the_fixed_note() {
    let statuses = vec![BatchStatus {
        id: "t1".to_string(),
        invalid_transactions: vec![vec![KeyValue {
            key: "other".to_string(),
            value: "x".to_string(),
        }]],
        status: "Invalid".to_string(),
    }];
    let mut wait: u64 = 10;
    let outcome = poll_step(&mut wait, &statuses, 1);
    assert_eq!(
        outcome.invalid_messages,
        vec!["Batch contained invalid transactions".to_string()]
    );
}

#[test]
fn all_valid_batch_finishes_the_poll() {
    let statuses = vec![status("t1", "Valid", &[]), status("t2", "Valid", &[])];
    let mut wait: u64 = 10;
    let outcome = poll_step(&mut wait, &statuses, 2);
    assert!(outcome.all_valid);
    assert!(outcome.finished);
}

#[test]
fn pending_statuses_spend_the_budget() {
    let statuses = vec![status("t1", "Pending", &[])];
    let mut wait: u64 = 10;
    let outcome = poll_step(&mut wait, &statuses, 3);
    assert!(!outcome.finished);
    assert_eq!(wait, 7);
    let outcome = poll_step(&mut wait, &statuses, 9);
    assert!(!outcome.finished);
    assert_eq!(wait, 0, "the budget never goes below zero");
    assert!(!outcome.all_valid);
}

#[test]
fn an_empty_status_list_is_resolved_and_valid() {
    let statuses: Vec<BatchStatus> = vec![];
    let mut wait: u64 = 10;
    let outcome = poll_step(&mut wait, &statuses, 1);
    assert!(outcome.all_valid);
    assert!(outcome.finished);
    assert!(outcome.invalid_messages.is_empty());
}

#[test]
fn wait_of_zero_renders_as_zero() {
    assert_eq!(status_url("http://g/bs?id=1", 0, None), "http://g/bs?id=1&wait=0");
}

#[test]
fn completion_is_classified_from_the_last_round() {
    assert!(matches!(submission_outcome(true, true), SubmissionOutcome::Confirmed));
    assert!(matches!(submission_outcome(true, false), SubmissionOutcome::PartiallyInvalid));
    assert!(matches!(submission_outcome(false, false), SubmissionOutcome::TimedOut));
}

#[test]
fn ever_pending_server_ends_within_the_budget() {
    let statuses = vec![status("t1", "Pending", &[])];
    let mut wait: u64 = SCABBARD_SUBMISSION_WAIT_SECS;
    let mut rounds = 0u64;
    while wait > 0 {
        let outcome = poll_step(&mut wait, &statuses, 1);
        assert!(!outcome.finished);
        rounds += 1;
        assert!(rounds <= SCABBARD_SUBMISSION_WAIT_SECS);
    }
    assert_eq!(rounds, SCABBARD_SUBMISSION_WAIT_SECS);
}
