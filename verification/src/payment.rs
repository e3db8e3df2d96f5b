//! Turning a [`PaymentRequest`] into an unsigned transaction with a single payment operation.

use crate::address::address_outcome;
use crate::builder::{Transaction, TransactionBuilder};
use crate::memo::{text_memo_outcome, Memo, MemoView};
use crate::operation::{payment_outcome, Operation, OperationView};
use crate::request::{memo_text_view, PaymentRequest};
use crate::tx_error::{TxError, TxErrorView};
use vstd::prelude::*;
use vstd::string::*;

verus! {

/// The outcome of validating an optional text memo.
pub open spec fn optional_memo_outcome(memo: Option<Seq<char>>) -> Result<(), TxErrorView> {
    match memo {
        None => Ok(()),
        Some(m) => match text_memo_outcome(m) {
            Ok(_) => Ok(()),
            Err(e) => Err(e),
        },
    }
}

/// The memo a transaction carries for an optional memo text.
pub open spec fn memo_for(memo: Option<Seq<char>>) -> MemoView {
    match memo {
        None => MemoView::NoMemo,
        Some(m) => MemoView::Text(m),
    }
}

/// What [`build_payment_transaction`] answers, checked in this order: the payment
/// operation (destination, then amount), the source account, the memo, the fee.
pub open spec fn payment_transaction_outcome(
    source: Seq<char>,
    base_fee_stroops: u32,
    destination: Seq<char>,
    amount: Seq<char>,
    memo: Option<Seq<char>>,
) -> Result<(), TxErrorView> {
    match payment_outcome(destination, amount) {
        Err(e) => Err(e),
        Ok(_) => match address_outcome(source) {
            Err(e) => Err(TxErrorView::InvalidAddress(e)),
            Ok(_) => match optional_memo_outcome(memo) {
                Err(e) => Err(e),
                Ok(_) => if base_fee_stroops < 100 {
                    Err(TxErrorView::FeeTooLow { provided: base_fee_stroops, minimum: 100 })
                } else {
                    Ok(())
                },
            },
        },
    }
}

/// Builds an unsigned payment [`Transaction`] for `source_account` at `sequence_number`.
pub fn build_payment_transaction(
    source_account: &str,
    sequence_number: i64,
    base_fee_stroops: u32,
    request: PaymentRequest,
) -> (res: Result<Transaction, TxError>)
    ensures
        match res {
            Ok(tx) => {
                &&& payment_transaction_outcome(
                    source_account@,
                    base_fee_stroops,
                    request.destination@,
                    request.amount@,
                    memo_text_view(request.memo),
                ) is Ok
                &&& tx.source_account@ == source_account@
                &&& tx.sequence_number == sequence_number
                &&& tx.base_fee_stroops == base_fee_stroops
                &&& tx.memo@ == memo_for(memo_text_view(request.memo))
                &&& tx.time_bounds is None
                &&& tx.operations@.len() == 1
                &&& tx.operations@[0]@ == (OperationView::Payment {
                    destination: request.destination@,
                    asset: request.asset@,
                    amount: request.amount@,
                })
            },
            Err(e) => payment_transaction_outcome(
                source_account@,
                base_fee_stroops,
                request.destination@,
                request.amount@,
                memo_text_view(request.memo),
            ) == Err::<(), TxErrorView>(e@),
        },
{
    let PaymentRequest { destination, asset, amount, memo } = request;
    let operation = match Operation::payment(destination.as_str(), asset, amount.as_str()) {
        Ok(op) => op,
        Err(e) => {
            return Err(e);
        },
    };
    let builder = match TransactionBuilder::new(source_account, sequence_number) {
        Ok(b) => b,
        Err(e) => {
            return Err(e);
        },
    };
    let mut builder = builder.base_fee_stroops(base_fee_stroops).add_operation(operation);
    match memo {
        Some(text) => match Memo::text(text.as_str()) {
            Ok(m) => {
                builder = builder.memo(m);
            },
            Err(e) => {
                return Err(e);
            },
        },
        None => {},
    }
    builder.build()
}

} // verus!
