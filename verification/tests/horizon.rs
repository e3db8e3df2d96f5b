use std::time::Duration;
use stellarforge::confirm::HorizonTransactionRecord;
use stellarforge::submit::{
    accepted_submission, rejected_submission, status_is_success, submission_body_unreadable,
    submission_request_failed, transaction_url, transactions_url, HorizonError,
    HorizonErrorExtras, HorizonResultCodes, HorizonSuccess,
};
use stellarforge::{confirmation_step, ConfirmationOptions, PollAction, PollEvent, TxError};

fn failure(action: PollAction) -> String {
    match action {
        PollAction::Finish(Err(err)) => err.to_string(),
        other => panic!("expected a failure, got {other:?}"),
    }
}

#[test]
fn urls_drop_trailing_slashes() {
    assert_eq!(transactions_url("http://h"), "http://h/transactions");
    assert_eq!(transactions_url("http://h//"), "http://h/transactions");
    assert_eq!(
        transaction_url("https://horizon.stellar.org/", "abc123"),
        "https://horizon.stellar.org/transactions/abc123"
    );
    assert_eq!(transactions_url("///"), "/transactions");
}

#[test]
fn success_statuses() {
    assert!(status_is_success(200));
    assert!(status_is_success(299));
    assert!(!status_is_success(199));
    assert!(!status_is_success(300));
    assert!(!status_is_success(404));
}

#[test]
fn accepted_submission_returns_hash_and_ledger() {
    let result = accepted_submission(Ok(HorizonSuccess {
        hash: "abc123".to_string(),
        ledger: 42,
    }))
    .unwrap();
    assert_eq!(result.hash, "abc123");
    assert_eq!(result.ledger, 42);
    let err = accepted_submission(Err("missing field `hash`".to_string())).unwrap_err();
    assert_eq!(
        err.to_string(),
        "transaction rejected: failed to parse successful response: missing field `hash`"
    );
}

#[test]
fn rejection_decodes_result_codes() {
    let body = HorizonError {
        title: Some("Transaction Failed".to_string()),
        extras: Some(HorizonErrorExtras {
            result_codes: Some(HorizonResultCodes {
                transaction: Some("tx_failed".to_string()),
                operations: Some(vec!["op_underfunded".to_string()]),
            }),
        }),
    };
    let err = rejected_submission(400, "{...}", Some(body));
    assert!(matches!(err, TxError::Rejected(_)));
    assert_eq!(
        err.to_string(),
        "transaction rejected: Transaction Failed (tx_failed): op_underfunded"
    );
}

#[test]
fn rejection_without_result_codes_falls_back_to_title() {
    let body = HorizonError {
        title: Some("Bad Request".to_string()),
        extras: None,
    };
    assert_eq!(
        rejected_submission(400, "{...}", Some(body)).to_string(),
        "transaction rejected: Bad Request"
    );
}

#[test]
fn unparseable_rejection_falls_back_to_status_code() {
    assert_eq!(
        rejected_submission(503, "<html>down</html>", None).to_string(),
        "transaction rejected: Horizon returned HTTP 503 with an unparseable body: <html>down</html>"
    );
}

#[test]
fn describe_variants() {
    let codes = |transaction: Option<&str>, operations: Option<Vec<&str>>| HorizonError {
        title: None,
        extras: Some(HorizonErrorExtras {
            result_codes: Some(HorizonResultCodes {
                transaction: transaction.map(|t| t.to_string()),
                operations: operations.map(|ops| ops.iter().map(|o| o.to_string()).collect()),
            }),
        }),
    };
    assert_eq!(codes(None, None).describe(), "unknown error (unknown)");
    assert_eq!(codes(Some("tx_bad_seq"), Some(vec![])).describe(), "unknown error (tx_bad_seq)");
    assert_eq!(
        codes(Some("tx_failed"), Some(vec!["op_a", "op_b", "op_c"])).describe(),
        "unknown error (tx_failed): op_a, op_b, op_c"
    );
    let no_codes = HorizonError {
        title: Some("T".to_string()),
        extras: Some(HorizonErrorExtras { result_codes: None }),
    };
    assert_eq!(no_codes.describe(), "T");
}

#[test]
fn fallback_previews_two_hundred_characters() {
    let raw = "é".repeat(250);
    let err = HorizonError::fallback(500, &raw);
    assert_eq!(
        err.title.unwrap(),
        format!("Horizon returned HTTP 500 with an unparseable body: {}", "é".repeat(200))
    );
    assert!(err.extras.is_none());
}

#[test]
fn submission_transport_errors() {
    assert_eq!(
        submission_request_failed("connection refused").to_string(),
        "transaction rejected: submission request failed: connection refused"
    );
    assert_eq!(
        submission_body_unreadable("eof").to_string(),
        "transaction rejected: failed to read response body: eof"
    );
}

#[test]
fn confirmation_succeeds_when_record_is_successful() {
    let record = HorizonTransactionRecord {
        hash: "abc123".to_string(),
        ledger: 42,
        successful: true,
    };
    match confirmation_step("abc123", "200ms", PollEvent::Record(Ok(record))) {
        PollAction::Finish(Ok(result)) => {
            assert_eq!(result.hash, "abc123");
            assert_eq!(result.ledger, 42);
        }
        other => panic!("unexpected action {other:?}"),
    }
}

#[test]
fn confirmation_polls_through_not_found() {
    let answer = PollEvent::Answered { status: 404, deadline_passed: false };
    assert!(matches!(confirmation_step("abc123", "200ms", answer), PollAction::WaitAndPoll));
    let answer = PollEvent::Answered { status: 200, deadline_passed: true };
    assert!(matches!(confirmation_step("abc123", "200ms", answer), PollAction::ReadRecord));
}

#[test]
fn confirmation_reports_failed_transaction() {
    let record = HorizonTransactionRecord {
        hash: "abc123".to_string(),
        ledger: 42,
        successful: false,
    };
    assert_eq!(
        failure(confirmation_step("abc123", "200ms", PollEvent::Record(Ok(record)))),
        "confirmation failed: transaction abc123 was included in ledger 42 but failed"
    );
}

#[test]
fn confirmation_times_out() {
    let answer = PollEvent::Answered { status: 404, deadline_passed: true };
    let message = failure(confirmation_step("abc123", "200ms", answer));
    assert!(message.contains("timed out"));
    assert_eq!(
        message,
        "confirmation failed: timed out after 200ms waiting for transaction abc123 to be confirmed"
    );
}

#[test]
fn confirmation_fails_fast_on_unexpected_status() {
    let answer = PollEvent::Answered { status: 500, deadline_passed: false };
    let message = failure(confirmation_step("abc123", "200ms", answer));
    assert!(message.contains("unexpected status 500"));
    assert_eq!(
        message,
        "confirmation failed: Horizon returned unexpected status 500 Internal Server Error while polling for transaction abc123"
    );
    let answer = PollEvent::Answered { status: 599, deadline_passed: false };
    assert_eq!(
        failure(confirmation_step("h", "1s", answer)),
        "confirmation failed: Horizon returned unexpected status 599 <unknown status code> while polling for transaction h"
    );
}

#[test]
fn confirmation_transport_failures() {
    assert_eq!(
        failure(confirmation_step("h", "1s", PollEvent::RequestFailed("refused".to_string()))),
        "confirmation failed: confirmation request failed: refused"
    );
    assert_eq!(
        failure(confirmation_step("h", "1s", PollEvent::BodyUnreadable("eof".to_string()))),
        "confirmation failed: failed to read response body: eof"
    );
    assert_eq!(
        failure(confirmation_step("h", "1s", PollEvent::Record(Err("bad json".to_string())))),
        "confirmation failed: failed to parse transaction record: bad json"
    );
}

#[test]
fn confirmation_options() {
    let defaults = ConfirmationOptions::default();
    assert_eq!(defaults.poll_interval, Duration::from_secs(2));
    assert_eq!(defaults.timeout, Duration::from_secs(60));
    let custom = ConfirmationOptions::new(Duration::from_millis(10), Duration::from_millis(200));
    assert_eq!(custom.poll_interval, Duration::from_millis(10));
    assert_eq!(custom.timeout, Duration::from_millis(200));
}
