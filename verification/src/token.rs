//! SEP-41 token (Soroban contract) payments.
//!
//! SEP-41 tokens (including wrapped classic assets and native Soroban tokens) expose a standard
//! `transfer(from: Address, to: Address, amount: i128)` contract function rather than the
//! classic `Payment` operation. `amount` is in the token's smallest unit — callers are
//! responsible for scaling by the token's `decimals()` since that varies per token.

use crate::address::{address_outcome, validate_address};
use crate::arg::{args_view, ScArg, ScArgView};
use crate::builder::{Transaction, TransactionBuilder};
use crate::memo::Memo;
use crate::operation::{invoke_outcome, Operation, OperationView};
use crate::payment::{memo_for, optional_memo_outcome};
use crate::request::memo_text_view;
use crate::text::{push_signed_decimal, signed_decimal};
use crate::tx_error::{TxError, TxErrorView};
use vstd::prelude::*;
use vstd::string::*;

verus! {

/// A request to transfer `amount` (in the token's smallest unit) of a SEP-41 token at
/// `contract` to `destination`.
#[derive(Debug, Clone, PartialEq, Eq)]
pub struct TokenPaymentRequest {
    pub contract: String,
    pub destination: String,
    pub amount: i128,
    pub memo: Option<String>,
}

impl TokenPaymentRequest {
    /// A token transfer request with no memo.
    pub fn new(contract: &str, destination: &str, amount: i128) -> (request: Self)
        ensures
            request.contract@ == contract@,
            request.destination@ == destination@,
            request.amount == amount,
            request.memo is None,
    {
        Self {
            contract: String::from_str(contract),
            destination: String::from_str(destination),
            amount,
            memo: None,
        }
    }

    /// Attaches a text memo to this request.
    pub fn with_memo(self, memo: &str) -> (request: Self)
        ensures
            request.contract == self.contract,
            request.destination == self.destination,
            request.amount == self.amount,
            memo_text_view(request.memo) == Some(memo@),
    {
        let mut request = self;
        request.memo = Some(String::from_str(memo));
        request
    }
}

/// The arguments of a SEP-41 `transfer(from, to, amount)` call.
pub open spec fn transfer_args(from: Seq<char>, to: Seq<char>, amount: i128) -> Seq<ScArgView> {
    seq![ScArgView::Address(from), ScArgView::Address(to), ScArgView::I128(amount)]
}

/// What [`build_token_payment_transaction`] answers, checked in this order: the source
/// account, a positive amount, the contract address, the memo, the fee.
pub open spec fn token_transaction_outcome(
    source: Seq<char>,
    base_fee_stroops: u32,
    contract: Seq<char>,
    amount: i128,
    memo: Option<Seq<char>>,
) -> Result<(), TxErrorView> {
    match address_outcome(source) {
        Err(e) => Err(TxErrorView::InvalidAddress(e)),
        Ok(_) => if amount <= 0 {
            Err(
                TxErrorView::Rejected(
                    "token payment amount must be greater than zero: "@ + signed_decimal(
                        amount as int,
                    ),
                ),
            )
        } else {
            match invoke_outcome(contract) {
                Err(e) => Err(e),
                Ok(_) => match optional_memo_outcome(memo) {
                    Err(e) => Err(e),
                    Ok(_) => if base_fee_stroops < 100 {
                        Err(TxErrorView::FeeTooLow { provided: base_fee_stroops, minimum: 100 })
                    } else {
                        Ok(())
                    },
                },
            }
        },
    }
}

/// Builds an unsigned [`Transaction`] that calls `transfer` on a SEP-41 token contract.
pub fn build_token_payment_transaction(
    source_account: &str,
    sequence_number: i64,
    base_fee_stroops: u32,
    request: TokenPaymentRequest,
) -> (res: Result<Transaction, TxError>)
    ensures
        match res {
            Ok(tx) => {
                &&& token_transaction_outcome(
                    source_account@,
                    base_fee_stroops,
                    request.contract@,
                    request.amount,
                    memo_text_view(request.memo),
                ) is Ok
                &&& tx.source_account@ == source_account@
                &&& tx.sequence_number == sequence_number
                &&& tx.base_fee_stroops == base_fee_stroops
                &&& tx.memo@ == memo_for(memo_text_view(request.memo))
                &&& tx.time_bounds is None
                &&& tx.operations@.len() == 1
                &&& tx.operations@[0]@ == (OperationView::InvokeContract {
                    contract: request.contract@,
                    function: "transfer"@,
                    args: transfer_args(source_account@, request.destination@, request.amount),
                })
                &&& tx.operations@[0]@ matches OperationView::InvokeContract { args, .. }
                &&& tx.operations@[0]@->args.len() == 3
                &&& tx.operations@[0]@->args[0] == ScArgView::Address(source_account@)
                &&& tx.operations@[0]@->args[1] == ScArgView::Address(request.destination@)
                &&& tx.operations@[0]@->args[2] == ScArgView::I128(request.amount)
            },
            Err(e) => token_transaction_outcome(
                source_account@,
                base_fee_stroops,
                request.contract@,
                request.amount,
                memo_text_view(request.memo),
            ) == Err::<(), TxErrorView>(e@),
        },
{
    match validate_address(source_account) {
        Err(e) => {
            return Err(TxError::InvalidAddress(e));
        },
        Ok(_) => {},
    }
    let TokenPaymentRequest { contract, destination, amount, memo } = request;
    if amount <= 0 {
        let mut reason = String::from_str("token payment amount must be greater than zero: ");
        push_signed_decimal(&mut reason, amount);
        return Err(TxError::Rejected(reason));
    }
    let args = vec![
        ScArg::Address(String::from_str(source_account)),
        ScArg::Address(destination),
        ScArg::I128(amount),
    ];
    proof {
        assert(args_view(args@) =~= transfer_args(source_account@, destination@, amount));
    }
    let operation = match Operation::invoke_contract(contract.as_str(), "transfer", args) {
        Ok(op) => op,
        Err(e) => {
            return Err(e);
        },
    };
    let builder = match TransactionBuilder::new(source_account, sequence_number) {
        Ok(b) => b,
        Err(e) => {
            return Err(e);
        },
    };
    let mut builder = builder.base_fee_stroops(base_fee_stroops).add_operation(operation);
    match memo {
        Some(text) => match Memo::text(text.as_str()) {
            Ok(m) => {
                builder = builder.memo(m);
            },
            Err(e) => {
                return Err(e);
            },
        },
        None => {},
    }
    builder.build()
}

} // verus!
