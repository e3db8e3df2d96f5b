//! Transaction operations: classic payments and Soroban contract invocations.

use crate::address::{address_outcome, kind_name, validate_address, AddressKind};
use crate::amount::{amount_outcome, validate_amount};
use crate::arg::{args_view, ScArg, ScArgView};
use crate::asset::{Asset, AssetView};
use crate::error::{Error, ErrorView};
use crate::tx_error::{TxError, TxErrorView};
use vstd::prelude::*;
use vstd::string::*;

verus! {

/// A single operation within a transaction.
#[derive(Debug, Clone, PartialEq, Eq)]
pub enum Operation {
    /// Sends `amount` of `asset` from the transaction's source account to `destination`.
    Payment { destination: String, asset: Asset, amount: String },
    /// Calls `function` on the Soroban contract at `contract` with `args`.
    InvokeContract { contract: String, function: String, args: Vec<ScArg> },
}

/// An [`Operation`] with its text fields taken as character sequences.
pub enum OperationView {
    Payment { destination: Seq<char>, asset: AssetView, amount: Seq<char> },
    InvokeContract { contract: Seq<char>, function: Seq<char>, args: Seq<ScArgView> },
}

impl View for Operation {
    type V = OperationView;

    open spec fn view(&self) -> OperationView {
        match self {
            Operation::Payment { destination, asset, amount } => OperationView::Payment {
                destination: destination@,
                asset: asset@,
                amount: amount@,
            },
            Operation::InvokeContract { contract, function, args } => OperationView::InvokeContract {
                contract: contract@,
                function: function@,
                args: args_view(args@),
            },
        }
    }
}

/// What [`Operation::payment`] answers for a destination and an amount: the
/// destination must be a valid address and the amount a positive decimal.
pub open spec fn payment_outcome(destination: Seq<char>, amount: Seq<char>) -> Result<(), TxErrorView> {
    match address_outcome(destination) {
        Err(e) => Err(TxErrorView::InvalidAddress(e)),
        Ok(_) => amount_outcome(amount),
    }
}

/// What [`Operation::invoke_contract`] answers for a contract address: it must be a
/// valid strkey of the contract kind.
pub open spec fn invoke_outcome(contract: Seq<char>) -> Result<(), TxErrorView> {
    match address_outcome(contract) {
        Err(e) => Err(TxErrorView::InvalidAddress(e)),
        Ok(AddressKind::Contract) => Ok(()),
        Ok(kind) => Err(
            TxErrorView::InvalidAddress(
                ErrorView::InvalidAddress {
                    address: contract,
                    reason: "expected a contract address, got "@ + kind_name(kind),
                },
            ),
        ),
    }
}

impl Operation {
    /// A payment operation, validating that the destination is a well-formed Stellar address
    /// and the amount is a positive decimal string.
    pub fn payment(destination: &str, asset: Asset, amount: &str) -> (res: Result<Self, TxError>)
        ensures
            match res {
                Ok(op) => payment_outcome(destination@, amount@) is Ok && op@
                    == (OperationView::Payment {
                    destination: destination@,
                    asset: asset@,
                    amount: amount@,
                }),
                Err(e) => payment_outcome(destination@, amount@) == Err::<(), TxErrorView>(e@),
            },
    {
        match validate_address(destination) {
            Err(e) => {
                return Err(TxError::InvalidAddress(e));
            },
            Ok(_) => {},
        }
        match validate_amount(amount) {
            Err(e) => {
                return Err(e);
            },
            Ok(()) => {},
        }
        Ok(
            Operation::Payment {
                destination: String::from_str(destination),
                asset,
                amount: String::from_str(amount),
            },
        )
    }

    /// A contract invocation, validating that `contract` is a well-formed contract address.
    pub fn invoke_contract(contract: &str, function: &str, args: Vec<ScArg>) -> (res: Result<
        Self,
        TxError,
    >)
        ensures
            match res {
                Ok(op) => invoke_outcome(contract@) is Ok && op@ == (OperationView::InvokeContract {
                    contract: contract@,
                    function: function@,
                    args: args_view(args@),
                }),
                Err(e) => invoke_outcome(contract@) == Err::<(), TxErrorView>(e@),
            },
    {
        match validate_address(contract) {
            Err(e) => {
                return Err(TxError::InvalidAddress(e));
            },
            Ok(AddressKind::Contract) => {},
            Ok(other) => {
                let mut reason = String::from_str("expected a contract address, got ");
                reason.append(other.name());
                return Err(
                    TxError::InvalidAddress(
                        Error::InvalidAddress { address: String::from_str(contract), reason },
                    ),
                );
            },
        }
        Ok(
            Operation::InvokeContract {
                contract: String::from_str(contract),
                function: String::from_str(function),
                args,
            },
        )
    }
}

} // verus!
