//! Stellar address (strkey) validation.

use crate::error::{view_result, Error, ErrorView};
use crate::strkey::{decode_strkey, strkey_decoding, StrkeyClass};
use vstd::prelude::*;
use vstd::string::*;

verus! {

/// The kind of Stellar address a validated strkey represents.
#[derive(Debug, Clone, Copy, PartialEq, Eq, Structural)]
pub enum AddressKind {
    /// A classic Stellar account (`G...`).
    Account,
    /// A muxed account (`M...`), used to identify sub-accounts sharing one underlying account.
    MuxedAccount,
    /// A Soroban contract (`C...`).
    Contract,
}

/// How an address kind is written in messages.
pub open spec fn kind_name(kind: AddressKind) -> Seq<char> {
    match kind {
        AddressKind::Account => "Account"@,
        AddressKind::MuxedAccount => "MuxedAccount"@,
        AddressKind::Contract => "Contract"@,
    }
}

impl AddressKind {
    /// The name of the kind, as it appears in messages.
    pub fn name(&self) -> (name: &'static str)
        ensures
            name@ == kind_name(*self),
    {
        match self {
            AddressKind::Account => "Account",
            AddressKind::MuxedAccount => "MuxedAccount",
            AddressKind::Contract => "Contract",
        }
    }
}

/// The reason given for a strkey that decodes but is of a kind that is not an address.
pub open spec fn not_an_address_reason() -> Seq<char> {
    "strkey is well-formed but not an account, muxed account, or contract address"@
}

/// What [`validate_address`] answers for `address`.
pub open spec fn address_outcome(address: Seq<char>) -> Result<AddressKind, ErrorView> {
    match strkey_decoding(address) {
        Ok(StrkeyClass::PublicKeyEd25519) => Ok(AddressKind::Account),
        Ok(StrkeyClass::MuxedAccountEd25519) => Ok(AddressKind::MuxedAccount),
        Ok(StrkeyClass::Contract) => Ok(AddressKind::Contract),
        Ok(StrkeyClass::Other) => Err(
            ErrorView::InvalidAddress { address, reason: not_an_address_reason() },
        ),
        Err(reason) => Err(ErrorView::InvalidAddress { address, reason }),
    }
}

/// Validates that `address` is a well-formed Stellar strkey and returns which kind it is.
///
/// This checks the strkey's version byte and CRC16-XMODEM checksum (SEP-23); it does not check
/// that the address exists on any particular network.
pub fn validate_address(address: &str) -> (res: Result<AddressKind, Error>)
    ensures
        view_result(res) == address_outcome(address@),
{
    match decode_strkey(address) {
        Ok(StrkeyClass::PublicKeyEd25519) => Ok(AddressKind::Account),
        Ok(StrkeyClass::MuxedAccountEd25519) => Ok(AddressKind::MuxedAccount),
        Ok(StrkeyClass::Contract) => Ok(AddressKind::Contract),
        Ok(StrkeyClass::Other) => Err(
            Error::InvalidAddress {
                address: String::from_str(address),
                reason: String::from_str(
                    "strkey is well-formed but not an account, muxed account, or contract address",
                ),
            },
        ),
        Err(reason) => Err(Error::InvalidAddress { address: String::from_str(address), reason }),
    }
}

/// Returns `true` if `address` is a valid, well-formed Stellar address of any kind recognized
/// here (account, muxed account, or contract).
pub fn is_valid_address(address: &str) -> (valid: bool)
    ensures
        valid == address_outcome(address@) is Ok,
{
    validate_address(address).is_ok()
}

} // verus!
