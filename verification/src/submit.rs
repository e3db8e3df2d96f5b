//! The decisions taken around a transaction submission to Horizon: where to send it, and
//! what its answer means. Sending the request itself is network I/O and happens outside
//! this library, which is handed the status and the body that came back.

use crate::text::{chars_of, decimal, push_decimal};
use crate::tx_error::{TxError, TxErrorView};
use vstd::prelude::*;
use vstd::string::*;

verus! {

/// The result of a transaction that Horizon confirmed was applied to the ledger.
#[derive(Debug, Clone, PartialEq, Eq)]
pub struct SubmitResult {
    /// The transaction hash, hex-encoded.
    pub hash: String,
    /// The ledger sequence the transaction was included in.
    pub ledger: i64,
}

/// A [`SubmitResult`] with its hash taken as a character sequence.
pub struct SubmitResultView {
    pub hash: Seq<char>,
    pub ledger: i64,
}

impl View for SubmitResult {
    type V = SubmitResultView;

    open spec fn view(&self) -> SubmitResultView {
        SubmitResultView { hash: self.hash@, ledger: self.ledger }
    }
}

/// The body of a successful Horizon transaction submission.
#[derive(Debug, Clone, PartialEq, Eq)]
pub struct HorizonSuccess {
    pub hash: String,
    pub ledger: i64,
}

/// The body of a failed Horizon request (a problem document).
#[derive(Debug, Clone, PartialEq, Eq)]
pub struct HorizonError {
    pub title: Option<String>,
    pub extras: Option<HorizonErrorExtras>,
}

/// The `extras` member of a Horizon problem document.
#[derive(Debug, Clone, PartialEq, Eq)]
pub struct HorizonErrorExtras {
    pub result_codes: Option<HorizonResultCodes>,
}

/// The result codes of a failed transaction.
#[derive(Debug, Clone, PartialEq, Eq)]
pub struct HorizonResultCodes {
    pub transaction: Option<String>,
    pub operations: Option<Vec<String>>,
}

/// `s` without the `/` characters that end it.
pub open spec fn trim_trailing_slashes(s: Seq<char>) -> Seq<char>
    decreases s.len(),
{
    if s.len() > 0 && s.last() == '/' {
        trim_trailing_slashes(s.drop_last())
    } else {
        s
    }
}

/// The items joined with `sep` between each two of them.
pub open spec fn joined(items: Seq<Seq<char>>, sep: Seq<char>) -> Seq<char>
    decreases items.len(),
{
    if items.len() == 0 {
        Seq::empty()
    } else if items.len() == 1 {
        items[0]
    } else {
        joined(items.drop_last(), sep) + sep + items.last()
    }
}

/// The first 200 characters of `s` (all of it when shorter).
pub open spec fn body_preview(s: Seq<char>) -> Seq<char> {
    if s.len() <= 200 {
        s
    } else {
        s.take(200)
    }
}

/// Views of a sequence of strings.
pub open spec fn strings_view(items: Seq<String>) -> Seq<Seq<char>> {
    items.map_values(|item: String| item@)
}

/// An optional string, taken as a character sequence.
pub open spec fn opt_view(s: Option<String>) -> Option<Seq<char>> {
    match s {
        Some(t) => Some(t@),
        None => None,
    }
}

impl HorizonError {
    /// The summary of the problem: its title (or `unknown error`), followed by the
    /// transaction result code (or `unknown`) in brackets when result codes are present,
    /// and then the operation result codes, when there is at least one.
    pub open spec fn summary(self) -> Seq<char> {
        let title = match self.title {
            Some(t) => t@,
            None => "unknown error"@,
        };
        match self.extras {
            Some(HorizonErrorExtras { result_codes: Some(codes) }) => {
                let tx_code = match codes.transaction {
                    Some(c) => c@,
                    None => "unknown"@,
                };
                match codes.operations {
                    Some(ops) => if ops@.len() > 0 {
                        title + " ("@ + tx_code + "): "@ + joined(strings_view(ops@), ", "@)
                    } else {
                        title + " ("@ + tx_code + ")"@
                    },
                    None => title + " ("@ + tx_code + ")"@,
                }
            },
            _ => title,
        }
    }

    /// The problem document used when Horizon's error body cannot be parsed: a title
    /// naming the status and the first 200 characters of the body, and no extras.
    pub fn fallback(status: u16, raw: &str) -> (err: Self)
        ensures
            opt_view(err.title) == Some(
                "Horizon returned HTTP "@ + decimal(status as nat) + " with an unparseable body: "@
                    + body_preview(raw@),
            ),
            err.extras is None,
    {
        let n = raw.unicode_len();
        let preview = if n <= 200 {
            raw.substring_char(0, n)
        } else {
            raw.substring_char(0, 200)
        };
        proof {
            if n <= 200 {
                assert(raw@.subrange(0, n as int) =~= raw@);
            }
        }
        let mut title = String::from_str("Horizon returned HTTP ");
        push_decimal(&mut title, status as u128);
        title.append(" with an unparseable body: ");
        title.append(preview);
        HorizonError { title: Some(title), extras: None }
    }

    /// A human-readable summary combining Horizon's title with its structured result codes,
    /// e.g. `"Transaction Failed (tx_failed): op_underfunded"`.
    pub fn describe(&self) -> (text: String)
        ensures
            text@ == self.summary(),
    {
        let mut text = match &self.title {
            Some(t) => t.clone(),
            None => String::from_str("unknown error"),
        };
        let codes = match &self.extras {
            Some(extras) => match &extras.result_codes {
                Some(codes) => codes,
                None => {
                    return text;
                },
            },
            None => {
                return text;
            },
        };
        text.append(" (");
        match &codes.transaction {
            Some(c) => text.append(c.as_str()),
            None => text.append("unknown"),
        }
        match &codes.operations {
            Some(ops) => {
                if ops.len() > 0 {
                    text.append("): ");
                    push_joined(&mut text, ops, ", ");
                } else {
                    text.append(")");
                }
            },
            None => text.append(")"),
        }
        text
    }
}

/// Appends the items joined with `sep` to `out`.
fn push_joined(out: &mut String, items: &Vec<String>, sep: &str)
    ensures
        final(out)@ == old(out)@ + joined(strings_view(items@), sep@),
{
    let ghost start = out@;
    let ghost all = strings_view(items@);
    let mut i: usize = 0;
    assert(all.take(0) =~= Seq::<Seq<char>>::empty());
    while i < items.len()
        invariant
            i <= items@.len(),
            all == strings_view(items@),
            all.len() == items@.len(),
            out@ == start + joined(all.take(i as int), sep@),
        decreases items.len() - i,
    {
        let ghost prefix = all.take(i as int);
        if i > 0 {
            out.append(sep);
        }
        out.append(items[i].as_str());
        proof {
            let next = all.take(i + 1);
            assert(next.drop_last() =~= prefix);
            assert(next.last() == items@[i as int]@);
            if i == 0 {
                assert(prefix =~= Seq::<Seq<char>>::empty());
            }
            assert(out@ =~= start + joined(next, sep@));
        }
        i = i + 1;
    }
    assert(all.take(items@.len() as int) =~= all);
}

/// `horizon_url` with its trailing slashes removed.
fn trimmed_base(horizon_url: &str) -> (base: String)
    ensures
        base@ == trim_trailing_slashes(horizon_url@),
{
    let chars = chars_of(horizon_url);
    let ghost s = horizon_url@;
    let mut k: usize = chars.len();
    assert(s.take(k as int) =~= s);
    while k > 0 && chars[k - 1] == '/'
        invariant
            chars@ == s,
            k <= s.len(),
            trim_trailing_slashes(s) == trim_trailing_slashes(s.take(k as int)),
        decreases k,
    {
        assert(s.take(k as int).drop_last() =~= s.take(k - 1));
        k = k - 1;
    }
    String::from_str(horizon_url.substring_char(0, k))
}

/// The Horizon endpoint that accepts transaction submissions.
pub fn transactions_url(horizon_url: &str) -> (url: String)
    ensures
        url@ == trim_trailing_slashes(horizon_url@) + "/transactions"@,
{
    let mut url = trimmed_base(horizon_url);
    url.append("/transactions");
    url
}

/// The Horizon endpoint that describes the transaction with hash `tx_hash`.
pub fn transaction_url(horizon_url: &str, tx_hash: &str) -> (url: String)
    ensures
        url@ == trim_trailing_slashes(horizon_url@) + "/transactions/"@ + tx_hash@,
{
    let mut url = trimmed_base(horizon_url);
    url.append("/transactions/");
    url.append(tx_hash);
    url
}

/// Whether an HTTP status is a success (200 to 299).
pub open spec fn is_success_status(status: u16) -> bool {
    200 <= status && status < 300
}

/// Whether an HTTP status is a success (200 to 299).
pub fn status_is_success(status: u16) -> (success: bool)
    ensures
        success == is_success_status(status),
{
    200 <= status && status < 300
}

/// The error for a submission whose request could not be sent or answered.
pub fn submission_request_failed(cause: &str) -> (err: TxError)
    ensures
        err@ == TxErrorView::Rejected("submission request failed: "@ + cause@),
{
    let mut reason = String::from_str("submission request failed: ");
    reason.append(cause);
    TxError::Rejected(reason)
}

/// The error for a submission whose response body could not be read.
pub fn submission_body_unreadable(cause: &str) -> (err: TxError)
    ensures
        err@ == TxErrorView::Rejected("failed to read response body: "@ + cause@),
{
    let mut reason = String::from_str("failed to read response body: ");
    reason.append(cause);
    TxError::Rejected(reason)
}

/// The outcome of a submission that Horizon answered with a success status, given
/// the body parsed as a [`HorizonSuccess`] or the parser's message.
pub fn accepted_submission(parsed: Result<HorizonSuccess, String>) -> (res: Result<
    SubmitResult,
    TxError,
>)
    ensures
        match parsed {
            Ok(body) => res matches Ok(r) && r.hash == body.hash && r.ledger == body.ledger,
            Err(message) => res matches Err(e) && e@ == TxErrorView::Rejected(
                "failed to parse successful response: "@ + message@,
            ),
        },
{
    match parsed {
        Ok(body) => Ok(SubmitResult { hash: body.hash, ledger: body.ledger }),
        Err(message) => {
            let mut reason = String::from_str("failed to parse successful response: ");
            reason.append(message.as_str());
            Err(TxError::Rejected(reason))
        },
    }
}

/// The error for a submission that Horizon answered with a non-success `status`, given
/// the raw body and the body parsed as a [`HorizonError`] when it could be.
pub fn rejected_submission(status: u16, raw: &str, parsed: Option<HorizonError>) -> (err: TxError)
    ensures
        match parsed {
            Some(body) => err@ == TxErrorView::Rejected(body.summary()),
            None => err@ == TxErrorView::Rejected(
                "Horizon returned HTTP "@ + decimal(status as nat) + " with an unparseable body: "@
                    + body_preview(raw@),
            ),
        },
{
    let body = match parsed {
        Some(body) => body,
        None => HorizonError::fallback(status, raw),
    };
    TxError::Rejected(body.describe())
}

} // verus!
