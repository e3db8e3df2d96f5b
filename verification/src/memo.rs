//! Transaction memos.
//!
//! Mirrors the Stellar `Memo` XDR union: `MEMO_NONE`, `MEMO_TEXT`, `MEMO_ID`, `MEMO_HASH`, and
//! `MEMO_RETURN`.

use crate::text::{decimal, push_decimal, utf8_byte_len};
use crate::tx_error::{TxError, TxErrorView};
use vstd::prelude::*;
use vstd::string::*;
use vstd::utf8::*;

verus! {

/// The maximum length, in bytes, of a `MEMO_TEXT` value.
pub const MAX_TEXT_MEMO_BYTES: usize = 28;

/// A Stellar transaction memo.
#[derive(Debug, Clone, PartialEq, Eq)]
pub enum Memo {
    /// No memo.
    NoMemo,
    /// A free-form UTF-8 text memo, at most 28 bytes.
    Text(String),
    /// A 64-bit identifier, commonly used to route deposits to a specific customer/sub-account.
    Id(u64),
    /// An opaque 32-byte hash (e.g. a hash of an off-chain document).
    Hash([u8; 32]),
    /// A 32-byte hash of the transaction that this transaction is returning funds for.
    Return([u8; 32]),
}

/// A [`Memo`] with its text taken as a character sequence.
pub enum MemoView {
    NoMemo,
    Text(Seq<char>),
    Id(u64),
    Hash([u8; 32]),
    Return([u8; 32]),
}

impl View for Memo {
    type V = MemoView;

    open spec fn view(&self) -> MemoView {
        match self {
            Memo::NoMemo => MemoView::NoMemo,
            Memo::Text(text) => MemoView::Text(text@),
            Memo::Id(id) => MemoView::Id(*id),
            Memo::Hash(hash) => MemoView::Hash(*hash),
            Memo::Return(hash) => MemoView::Return(*hash),
        }
    }
}

/// What [`Memo::text`] answers for a text: a text memo when its UTF-8 encoding has at
/// most [`MAX_TEXT_MEMO_BYTES`] bytes, an `InvalidMemo` error naming its size otherwise.
pub open spec fn text_memo_outcome(value: Seq<char>) -> Result<MemoView, TxErrorView> {
    if encode_utf8(value).len() > 28 {
        Err(
            TxErrorView::InvalidMemo(
                "text memo is "@ + decimal(encode_utf8(value).len()) + " bytes, maximum is 28"@,
            ),
        )
    } else {
        Ok(MemoView::Text(value))
    }
}

/// Whether a memo meets the constraints of its type: a text memo's UTF-8 encoding must
/// have at most [`MAX_TEXT_MEMO_BYTES`] bytes; the other kinds always do. On failure, the
/// error is the one [`Memo::text`] gives for the same text.
pub open spec fn memo_check(memo: Memo) -> Result<(), TxErrorView> {
    match memo {
        Memo::Text(text) => match text_memo_outcome(text@) {
            Ok(_) => Ok(()),
            Err(e) => Err(e),
        },
        _ => Ok(()),
    }
}

impl Default for Memo {
    fn default() -> (memo: Self)
        ensures
            memo == Memo::NoMemo,
    {
        Memo::NoMemo
    }
}

impl Memo {
    /// Builds a text memo, validating that it does not exceed [`MAX_TEXT_MEMO_BYTES`] bytes.
    pub fn text(value: &str) -> (res: Result<Self, TxError>)
        ensures
            match res {
                Ok(memo) => text_memo_outcome(value@) == Ok::<MemoView, TxErrorView>(memo@),
                Err(e) => text_memo_outcome(value@) == Err::<MemoView, TxErrorView>(e@),
            },
    {
        let size = utf8_byte_len(value);
        if size > 28 {
            let mut reason = String::from_str("text memo is ");
            push_decimal(&mut reason, size);
            reason.append(" bytes, maximum is 28");
            return Err(TxError::InvalidMemo(reason));
        }
        Ok(Memo::Text(String::from_str(value)))
    }

    /// Checks that this memo meets the constraints of its type (see [`memo_check`]).
    pub fn validate(&self) -> (res: Result<(), TxError>)
        ensures
            match res {
                Ok(()) => memo_check(*self) is Ok,
                Err(e) => memo_check(*self) == Err::<(), TxErrorView>(e@),
            },
    {
        match self {
            Memo::Text(text) => match Memo::text(text.as_str()) {
                Ok(_) => Ok(()),
                Err(e) => Err(e),
            },
            _ => Ok(()),
        }
    }

    /// Returns `true` if this memo is [`Memo::NoMemo`].
    pub fn is_none(&self) -> (none: bool)
        ensures
            none == (self is NoMemo),
    {
        matches!(self, Memo::NoMemo)
    }
}

} // verus!
