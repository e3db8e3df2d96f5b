//! The transaction builder.

use crate::address::{address_outcome, validate_address};
use crate::memo::{memo_check, Memo};
use crate::operation::Operation;
use crate::time_bounds::{bounds_order_reason, TimeBounds};
use crate::tx_error::{TxError, TxErrorView};
use vstd::prelude::*;
use vstd::string::*;

verus! {

/// The network minimum base fee, in stroops, per operation.
pub const MIN_BASE_FEE_STROOPS: u32 = 100;

/// The maximum number of operations a single Stellar transaction may contain.
pub const MAX_OPERATIONS: usize = 100;

/// An unsigned, constructed Stellar transaction, ready to be encoded to XDR and signed.
#[derive(Debug, Clone, PartialEq, Eq)]
pub struct Transaction {
    pub source_account: String,
    pub sequence_number: i64,
    pub base_fee_stroops: u32,
    pub memo: Memo,
    pub time_bounds: Option<TimeBounds>,
    pub operations: Vec<Operation>,
}

impl Transaction {
    /// The total fee for this transaction: `base_fee_stroops * operations.len()`.
    pub fn total_fee_stroops(&self) -> (fee: u64)
        requires
            self.base_fee_stroops * self.operations@.len() <= u64::MAX,
        ensures
            fee == self.base_fee_stroops * self.operations@.len(),
    {
        self.base_fee_stroops as u64 * self.operations.len() as u64
    }
}

/// Builds a [`Transaction`], validating Stellar's structural constraints (operation count, fee
/// floor, memo/time-bounds validity) before producing the final value.
#[derive(Debug)]
pub struct TransactionBuilder {
    source_account: Option<String>,
    sequence_number: Option<i64>,
    base_fee_stroops: Option<u32>,
    memo: Memo,
    time_bounds: Option<TimeBounds>,
    operations: Vec<Operation>,
}

/// The fields a [`TransactionBuilder`] has accumulated.
pub struct BuilderView {
    pub source_account: Option<Seq<char>>,
    pub sequence_number: Option<i64>,
    pub base_fee_stroops: Option<u32>,
    pub memo: Memo,
    pub time_bounds: Option<TimeBounds>,
    pub operations: Seq<Operation>,
}

impl View for TransactionBuilder {
    type V = BuilderView;

    closed spec fn view(&self) -> BuilderView {
        BuilderView {
            source_account: match self.source_account {
                Some(s) => Some(s@),
                None => None,
            },
            sequence_number: self.sequence_number,
            base_fee_stroops: self.base_fee_stroops,
            memo: self.memo,
            time_bounds: self.time_bounds,
            operations: self.operations@,
        }
    }
}

impl BuilderView {
    /// The base fee the built transaction uses: the one set, or the network minimum.
    pub open spec fn effective_fee(self) -> u32 {
        match self.base_fee_stroops {
            Some(fee) => fee,
            None => 100,
        }
    }

    /// What [`TransactionBuilder::build`] answers for these fields, checked in this order:
    /// a source account and a sequence number are present, the base fee is at least the
    /// network minimum, there are between 1 and 100 operations, the memo meets the
    /// constraints of its type (as [`Memo::text`] checks them), and the time bounds, when
    /// set, end strictly after they start (as [`TimeBounds::new`] checks them).
    pub open spec fn build_outcome(self) -> Result<(), TxErrorView> {
        if self.source_account is None {
            Err(TxErrorView::MissingField("source_account"@))
        } else if self.sequence_number is None {
            Err(TxErrorView::MissingField("sequence_number"@))
        } else if self.effective_fee() < 100 {
            Err(TxErrorView::FeeTooLow { provided: self.effective_fee(), minimum: 100 })
        } else if self.operations.len() == 0 {
            Err(TxErrorView::NoOperations)
        } else if self.operations.len() > 100 {
            Err(TxErrorView::TooManyOperations(self.operations.len() as usize))
        } else if memo_check(self.memo) is Err {
            memo_check(self.memo)
        } else {
            match self.time_bounds {
                Some(bounds) => if bounds.min_time < bounds.max_time {
                    Ok(())
                } else {
                    Err(TxErrorView::InvalidMemo(bounds_order_reason(bounds.min_time, bounds.max_time)))
                },
                None => Ok(()),
            }
        }
    }

    /// The transaction that [`TransactionBuilder::build`] makes from these fields.
    pub open spec fn builds(self, tx: Transaction) -> bool {
        &&& self.source_account == Some(tx.source_account@)
        &&& self.sequence_number == Some(tx.sequence_number)
        &&& tx.base_fee_stroops == self.effective_fee()
        &&& tx.memo == self.memo
        &&& tx.time_bounds == self.time_bounds
        &&& tx.operations@ == self.operations
    }
}

impl Default for TransactionBuilder {
    fn default() -> (builder: Self)
        ensures
            builder@ == (BuilderView {
                source_account: None,
                sequence_number: None,
                base_fee_stroops: None,
                memo: Memo::NoMemo,
                time_bounds: None,
                operations: Seq::empty(),
            }),
    {
        TransactionBuilder {
            source_account: None,
            sequence_number: None,
            base_fee_stroops: None,
            memo: Memo::NoMemo,
            time_bounds: None,
            operations: Vec::new(),
        }
    }
}

impl TransactionBuilder {
    /// Starts building a transaction for `source_account` at `sequence_number` (callers are
    /// expected to pass the sequence number this transaction should use directly).
    pub fn new(source_account: &str, sequence_number: i64) -> (res: Result<Self, TxError>)
        ensures
            match res {
                Ok(builder) => address_outcome(source_account@) is Ok && builder@ == (BuilderView {
                    source_account: Some(source_account@),
                    sequence_number: Some(sequence_number),
                    base_fee_stroops: None,
                    memo: Memo::NoMemo,
                    time_bounds: None,
                    operations: Seq::empty(),
                }),
                Err(e) => address_outcome(source_account@) matches Err(cause) && e@
                    == TxErrorView::InvalidAddress(cause),
            },
    {
        match validate_address(source_account) {
            Err(e) => {
                return Err(TxError::InvalidAddress(e));
            },
            Ok(_) => {},
        }
        Ok(
            TransactionBuilder {
                source_account: Some(String::from_str(source_account)),
                sequence_number: Some(sequence_number),
                base_fee_stroops: None,
                memo: Memo::NoMemo,
                time_bounds: None,
                operations: Vec::new(),
            },
        )
    }

    /// Sets the base fee per operation, in stroops. Defaults to [`MIN_BASE_FEE_STROOPS`] if not
    /// called.
    pub fn base_fee_stroops(self, fee: u32) -> (builder: Self)
        ensures
            builder@ == (BuilderView { base_fee_stroops: Some(fee), ..self@ }),
    {
        let mut builder = self;
        builder.base_fee_stroops = Some(fee);
        builder
    }

    /// Sets the transaction memo. Defaults to [`Memo::NoMemo`] if not called.
    pub fn memo(self, memo: Memo) -> (builder: Self)
        ensures
            builder@ == (BuilderView { memo: memo, ..self@ }),
    {
        let mut builder = self;
        builder.memo = memo;
        builder
    }

    /// Sets the transaction's valid time window.
    pub fn time_bounds(self, bounds: TimeBounds) -> (builder: Self)
        ensures
            builder@ == (BuilderView { time_bounds: Some(bounds), ..self@ }),
    {
        let mut builder = self;
        builder.time_bounds = Some(bounds);
        builder
    }

    /// Appends an operation to the transaction.
    pub fn add_operation(self, operation: Operation) -> (builder: Self)
        ensures
            builder@ == (BuilderView { operations: self@.operations.push(operation), ..self@ }),
    {
        let mut builder = self;
        builder.operations.push(operation);
        builder
    }

    /// Validates the accumulated fields and produces the final [`Transaction`].
    pub fn build(self) -> (res: Result<Transaction, TxError>)
        ensures
            match res {
                Ok(tx) => self@.build_outcome() is Ok && self@.builds(tx),
                Err(e) => self@.build_outcome() == Err::<(), TxErrorView>(e@),
            },
    {
        let source_account = match self.source_account {
            Some(s) => s,
            None => {
                return Err(TxError::MissingField("source_account"));
            },
        };
        let sequence_number = match self.sequence_number {
            Some(n) => n,
            None => {
                return Err(TxError::MissingField("sequence_number"));
            },
        };
        let base_fee_stroops = match self.base_fee_stroops {
            Some(fee) => fee,
            None => MIN_BASE_FEE_STROOPS,
        };
        if base_fee_stroops < MIN_BASE_FEE_STROOPS {
            return Err(TxError::FeeTooLow { provided: base_fee_stroops, minimum: MIN_BASE_FEE_STROOPS });
        }
        if self.operations.len() == 0 {
            return Err(TxError::NoOperations);
        }
        if self.operations.len() > MAX_OPERATIONS {
            return Err(TxError::TooManyOperations(self.operations.len()));
        }
        match self.memo.validate() {
            Ok(()) => {},
            Err(e) => {
                return Err(e);
            },
        }
        match &self.time_bounds {
            Some(bounds) => match bounds.validate() {
                Ok(()) => {},
                Err(e) => {
                    return Err(e);
                },
            },
            None => {},
        }
        Ok(
            Transaction {
                source_account,
                sequence_number,
                base_fee_stroops,
                memo: self.memo,
                time_bounds: self.time_bounds,
                operations: self.operations,
            },
        )
    }
}

/// A transaction that the builder accepts pays at least the network minimum per
/// operation, holds between 1 and 100 operations, and its total fee lies between
/// 100 stroops and a hundred times its base fee (so it always fits in a `u64`).
pub proof fn lemma_built_transaction_fee(b: BuilderView, tx: Transaction)
    requires
        b.build_outcome() is Ok,
        b.builds(tx),
    ensures
        tx.base_fee_stroops >= 100,
        1 <= tx.operations@.len() <= 100,
        100 <= tx.base_fee_stroops <= tx.base_fee_stroops * tx.operations@.len(),
        tx.base_fee_stroops * tx.operations@.len() <= tx.base_fee_stroops * 100,
        tx.base_fee_stroops * tx.operations@.len() <= u64::MAX,
{
    let fee = tx.base_fee_stroops as int;
    let n = tx.operations@.len() as int;
    assert(fee <= fee * n <= fee * 100 && fee * 100 <= u64::MAX) by (nonlinear_arith)
        requires
            100 <= fee <= u32::MAX,
            1 <= n <= 100,
    ;
}

} // verus!
