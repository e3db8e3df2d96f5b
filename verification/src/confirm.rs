//! Confirmation tracking: the decisions taken while polling Horizon for a transaction's final
//! result.
//!
//! Polling alternates network requests and sleeps, which happen outside this library; each
//! thing that happens is handed to [`confirmation_step`] as a [`PollEvent`], and the
//! [`PollAction`] it returns says whether to wait and poll again, to read the record from the
//! response body, or to finish with a result.

use crate::submit::{is_success_status, SubmitResult, SubmitResultView};
use crate::text::{decimal, push_decimal, push_signed_decimal, signed_decimal};
use crate::tx_error::{TxError, TxErrorView};
use core::time::Duration;
use vstd::prelude::*;
use vstd::string::*;

verus! {

/// Polling behavior for confirmation tracking.
#[derive(Debug, Clone, Copy, PartialEq, Eq)]
pub struct ConfirmationOptions {
    /// How long to wait between polls while the transaction hasn't appeared yet.
    pub poll_interval: Duration,
    /// How long to keep polling before giving up.
    pub timeout: Duration,
}

/// The duration that `Duration::from_secs` makes of a number of seconds.
pub uninterp spec fn duration_of_secs(secs: u64) -> Duration;

/// Calls `core::time::Duration::from_secs`, which never panics; the contract claims only
/// that the result is determined by `secs`.
#[verifier::external_body]
fn duration_from_secs(secs: u64) -> (d: Duration)
    ensures
        d == duration_of_secs(secs),
{
    Duration::from_secs(secs)
}

impl ConfirmationOptions {
    /// Options that poll every `poll_interval` until `timeout` has elapsed.
    pub fn new(poll_interval: Duration, timeout: Duration) -> (options: Self)
        ensures
            options.poll_interval == poll_interval,
            options.timeout == timeout,
    {
        Self { poll_interval, timeout }
    }
}

impl Default for ConfirmationOptions {
    /// Polls every 2 seconds for up to 60 seconds — generous relative to Stellar's ~5 second
    /// ledger close time, without waiting indefinitely on a transaction that was never applied.
    fn default() -> (options: Self)
        ensures
            options.poll_interval == duration_of_secs(2),
            options.timeout == duration_of_secs(60),
    {
        Self { poll_interval: duration_from_secs(2), timeout: duration_from_secs(60) }
    }
}

/// The Horizon record of a transaction that reached a ledger.
#[derive(Debug, Clone, PartialEq, Eq)]
pub struct HorizonTransactionRecord {
    pub hash: String,
    pub ledger: i64,
    pub successful: bool,
}

/// What happened during one round of polling.
#[derive(Debug)]
pub enum PollEvent {
    /// The request could not be sent or no response came back; the text describes why.
    RequestFailed(String),
    /// Horizon answered with `status`; `deadline_passed` tells whether the polling
    /// timeout had elapsed when the answer came.
    Answered { status: u16, deadline_passed: bool },
    /// The body of a success answer could not be read; the text describes why.
    BodyUnreadable(String),
    /// The body of a success answer, parsed as a transaction record, or the parser's message.
    Record(Result<HorizonTransactionRecord, String>),
}

/// What to do next.
#[derive(Debug)]
pub enum PollAction {
    /// Wait for the poll interval, then poll again.
    WaitAndPoll,
    /// Read the body of the answer and parse it as a transaction record.
    ReadRecord,
    /// Stop polling with this result.
    Finish(Result<SubmitResult, TxError>),
}

/// A [`PollEvent`] with its text fields taken as character sequences.
pub enum PollEventView {
    RequestFailed(Seq<char>),
    Answered { status: u16, deadline_passed: bool },
    BodyUnreadable(Seq<char>),
    Record(Result<(Seq<char>, i64, bool), Seq<char>>),
}

/// A [`PollAction`] with its result taken by its view.
pub enum PollActionView {
    WaitAndPoll,
    ReadRecord,
    Finish(Result<SubmitResultView, TxErrorView>),
}

impl View for PollEvent {
    type V = PollEventView;

    open spec fn view(&self) -> PollEventView {
        match self {
            PollEvent::RequestFailed(cause) => PollEventView::RequestFailed(cause@),
            PollEvent::Answered { status, deadline_passed } => PollEventView::Answered {
                status: *status,
                deadline_passed: *deadline_passed,
            },
            PollEvent::BodyUnreadable(cause) => PollEventView::BodyUnreadable(cause@),
            PollEvent::Record(Ok(record)) => PollEventView::Record(
                Ok((record.hash@, record.ledger, record.successful)),
            ),
            PollEvent::Record(Err(message)) => PollEventView::Record(Err(message@)),
        }
    }
}

impl View for PollAction {
    type V = PollActionView;

    open spec fn view(&self) -> PollActionView {
        match self {
            PollAction::WaitAndPoll => PollActionView::WaitAndPoll,
            PollAction::ReadRecord => PollActionView::ReadRecord,
            PollAction::Finish(Ok(result)) => PollActionView::Finish(Ok(result@)),
            PollAction::Finish(Err(e)) => PollActionView::Finish(Err(e@)),
        }
    }
}

/// The reason phrase that `reqwest::StatusCode::canonical_reason` gives a status code,
/// if it has one.
pub uninterp spec fn status_reason(status: u16) -> Option<Seq<char>>;

/// Calls `reqwest::StatusCode::from_u16` and then `canonical_reason`; a code that is not
/// a valid status has no reason. The contract claims only that the answer is a function of
/// the code.
#[verifier::external_body]
fn canonical_reason(status: u16) -> (reason: Option<&'static str>)
    ensures
        status_reason(status) == match reason {
            Some(r) => Some(r@),
            None => None::<Seq<char>>,
        },
{
    match reqwest::StatusCode::from_u16(status) {
        Ok(code) => code.canonical_reason(),
        Err(_) => None,
    }
}

/// The reason phrase shown after a status code.
pub open spec fn reason_text(status: u16) -> Seq<char> {
    match status_reason(status) {
        Some(r) => r,
        None => "<unknown status code>"@,
    }
}

/// A finished confirmation that failed with `reason`.
pub open spec fn failed(reason: Seq<char>) -> PollActionView {
    PollActionView::Finish(Err(TxErrorView::ConfirmationFailed(reason)))
}

/// What [`confirmation_step`] decides for an event while confirming `tx_hash`, with the
/// timeout written as `timeout`.
///
/// A `404` means the transaction has not reached a ledger yet: poll again, unless the
/// timeout has elapsed. Any other non-success status ends the polling with an error; a
/// success leads to reading the record, and a record ends the polling with the ledger
/// the transaction reached, or with an error when it failed.
pub open spec fn confirmation_decision(
    tx_hash: Seq<char>,
    timeout: Seq<char>,
    event: PollEventView,
) -> PollActionView {
    match event {
        PollEventView::RequestFailed(cause) => failed("confirmation request failed: "@ + cause),
        PollEventView::Answered { status, deadline_passed } => if status == 404 {
            if deadline_passed {
                failed(
                    "timed out after "@ + timeout + " waiting for transaction "@ + tx_hash
                        + " to be confirmed"@,
                )
            } else {
                PollActionView::WaitAndPoll
            }
        } else if !is_success_status(status) {
            failed(
                "Horizon returned unexpected status "@ + decimal(status as nat) + " "@ + reason_text(status)
                    + " while polling for transaction "@ + tx_hash,
            )
        } else {
            PollActionView::ReadRecord
        },
        PollEventView::BodyUnreadable(cause) => failed("failed to read response body: "@ + cause),
        PollEventView::Record(Err(message)) => failed(
            "failed to parse transaction record: "@ + message,
        ),
        PollEventView::Record(Ok((hash, ledger, successful))) => if successful {
            PollActionView::Finish(Ok(SubmitResultView { hash, ledger }))
        } else {
            failed(
                "transaction "@ + tx_hash + " was included in ledger "@ + signed_decimal(
                    ledger as int,
                ) + " but failed"@,
            )
        },
    }
}

fn fail_with(mut reason: String, detail: &str) -> (action: PollAction)
    ensures
        action@ == failed(reason@ + detail@),
{
    reason.append(detail);
    PollAction::Finish(Err(TxError::ConfirmationFailed(reason)))
}

/// Decides what to do after `event` while confirming the transaction `tx_hash`;
/// `timeout` is how the polling timeout is written in messages.
pub fn confirmation_step(tx_hash: &str, timeout: &str, event: PollEvent) -> (action: PollAction)
    ensures
        action@ == confirmation_decision(tx_hash@, timeout@, event@),
{
    match event {
        PollEvent::RequestFailed(cause) => fail_with(
            String::from_str("confirmation request failed: "),
            cause.as_str(),
        ),
        PollEvent::Answered { status, deadline_passed } => {
            if status == 404 {
                if deadline_passed {
                    let mut reason = String::from_str("timed out after ");
                    reason.append(timeout);
                    reason.append(" waiting for transaction ");
                    reason.append(tx_hash);
                    reason.append(" to be confirmed");
                    PollAction::Finish(Err(TxError::ConfirmationFailed(reason)))
                } else {
                    PollAction::WaitAndPoll
                }
            } else if !(200 <= status && status < 300) {
                let mut reason = String::from_str("Horizon returned unexpected status ");
                push_decimal(&mut reason, status as u128);
                reason.append(" ");
                match canonical_reason(status) {
                    Some(r) => reason.append(r),
                    None => reason.append("<unknown status code>"),
                }
                reason.append(" while polling for transaction ");
                reason.append(tx_hash);
                PollAction::Finish(Err(TxError::ConfirmationFailed(reason)))
            } else {
                PollAction::ReadRecord
            }
        },
        PollEvent::BodyUnreadable(cause) => fail_with(
            String::from_str("failed to read response body: "),
            cause.as_str(),
        ),
        PollEvent::Record(Err(message)) => fail_with(
            String::from_str("failed to parse transaction record: "),
            message.as_str(),
        ),
        PollEvent::Record(Ok(record)) => {
            if record.successful {
                PollAction::Finish(Ok(SubmitResult { hash: record.hash, ledger: record.ledger }))
            } else {
                let mut reason = String::from_str("transaction ");
                reason.append(tx_hash);
                reason.append(" was included in ledger ");
                push_signed_decimal(&mut reason, record.ledger as i128);
                reason.append(" but failed");
                PollAction::Finish(Err(TxError::ConfirmationFailed(reason)))
            }
        },
    }
}

} // verus!
