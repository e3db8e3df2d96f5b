//! Structured errors for transaction construction and submission.

use crate::error::{Error, ErrorView};
use crate::text::{decimal, push_decimal};
use vstd::prelude::*;
use vstd::string::*;

verus! {

/// Errors that can occur while building, submitting, or tracking a Stellar transaction.
#[derive(Debug)]
pub enum TxError {
    /// A field required to build a valid transaction was missing (e.g. no source account).
    MissingField(&'static str),
    /// A transaction had no operations; Stellar requires at least one.
    NoOperations,
    /// Too many operations were added; Stellar caps a transaction at 100 operations.
    TooManyOperations(usize),
    /// The base fee per operation was below the network minimum (100 stroops).
    FeeTooLow { provided: u32, minimum: u32 },
    /// The memo did not meet the constraints for its type (e.g. text memo over 28 bytes).
    InvalidMemo(String),
    /// An address (source, destination, etc.) failed validation.
    InvalidAddress(Error),
    /// The transaction was rejected during simulation or submission.
    Rejected(String),
    /// Confirmation tracking failed (e.g. timed out or lost connection).
    ConfirmationFailed(String),
}

/// A [`TxError`] with its text fields taken as character sequences.
pub enum TxErrorView {
    MissingField(Seq<char>),
    NoOperations,
    TooManyOperations(usize),
    FeeTooLow { provided: u32, minimum: u32 },
    InvalidMemo(Seq<char>),
    InvalidAddress(ErrorView),
    Rejected(Seq<char>),
    ConfirmationFailed(Seq<char>),
}

impl View for TxError {
    type V = TxErrorView;

    open spec fn view(&self) -> TxErrorView {
        match self {
            TxError::MissingField(field) => TxErrorView::MissingField(field@),
            TxError::NoOperations => TxErrorView::NoOperations,
            TxError::TooManyOperations(count) => TxErrorView::TooManyOperations(*count),
            TxError::FeeTooLow { provided, minimum } => TxErrorView::FeeTooLow {
                provided: *provided,
                minimum: *minimum,
            },
            TxError::InvalidMemo(reason) => TxErrorView::InvalidMemo(reason@),
            TxError::InvalidAddress(err) => TxErrorView::InvalidAddress(err@),
            TxError::Rejected(reason) => TxErrorView::Rejected(reason@),
            TxError::ConfirmationFailed(reason) => TxErrorView::ConfirmationFailed(reason@),
        }
    }
}

impl TxErrorView {
    /// The human-readable message of the error.
    pub open spec fn message(self) -> Seq<char> {
        match self {
            TxErrorView::MissingField(field) => "missing required field: "@ + field,
            TxErrorView::NoOperations => "transaction must have at least one operation"@,
            TxErrorView::TooManyOperations(count) => "transaction has "@ + decimal(count as nat)
                + " operations, maximum is 100"@,
            TxErrorView::FeeTooLow { provided, minimum } => "base fee "@ + decimal(provided as nat)
                + " stroops is below the network minimum of "@ + decimal(minimum as nat)
                + " stroops"@,
            TxErrorView::InvalidMemo(reason) => "invalid memo: "@ + reason,
            TxErrorView::InvalidAddress(err) => err.message(),
            TxErrorView::Rejected(reason) => "transaction rejected: "@ + reason,
            TxErrorView::ConfirmationFailed(reason) => "confirmation failed: "@ + reason,
        }
    }
}

/// A result whose error is taken by its view.
pub open spec fn view_tx_result<T>(r: Result<T, TxError>) -> Result<T, TxErrorView> {
    match r {
        Ok(v) => Ok(v),
        Err(e) => Err(e@),
    }
}

impl TxError {
    /// Renders the error as a human-readable message.
    pub fn to_string(&self) -> (s: String)
        ensures
            s@ == self@.message(),
    {
        match self {
            TxError::MissingField(field) => {
                let mut s = String::from_str("missing required field: ");
                s.append(field);
                s
            },
            TxError::NoOperations => String::from_str("transaction must have at least one operation"),
            TxError::TooManyOperations(count) => {
                let mut s = String::from_str("transaction has ");
                push_decimal(&mut s, *count as u128);
                s.append(" operations, maximum is 100");
                s
            },
            TxError::FeeTooLow { provided, minimum } => {
                let mut s = String::from_str("base fee ");
                push_decimal(&mut s, *provided as u128);
                s.append(" stroops is below the network minimum of ");
                push_decimal(&mut s, *minimum as u128);
                s.append(" stroops");
                s
            },
            TxError::InvalidMemo(reason) => {
                let mut s = String::from_str("invalid memo: ");
                s.append(reason.as_str());
                s
            },
            TxError::InvalidAddress(err) => err.to_string(),
            TxError::Rejected(reason) => {
                let mut s = String::from_str("transaction rejected: ");
                s.append(reason.as_str());
                s
            },
            TxError::ConfirmationFailed(reason) => {
                let mut s = String::from_str("confirmation failed: ");
                s.append(reason.as_str());
                s
            },
        }
    }
}

impl From<Error> for TxError {
    fn from(err: Error) -> (wrapped: TxError) {
        TxError::InvalidAddress(err)
    }
}

impl vstd::std_specs::convert::FromSpecImpl<Error> for TxError {
    open spec fn obeys_from_spec() -> bool {
        true
    }

    open spec fn from_spec(err: Error) -> TxError {
        TxError::InvalidAddress(err)
    }
}

} // verus!
