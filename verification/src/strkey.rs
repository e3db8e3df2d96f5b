//! Decoding of Stellar strkeys (SEP-23), delegated to the `stellar_strkey` crate.

use stellar_strkey::Strkey;
use vstd::prelude::*;

verus! {

/// The strkey kinds that this library tells apart; every other kind that
/// decodes successfully is `Other`.
#[derive(Debug, Clone, Copy, PartialEq, Eq, Structural)]
pub enum StrkeyClass {
    PublicKeyEd25519,
    MuxedAccountEd25519,
    Contract,
    Other,
}

/// What `stellar_strkey::Strkey::from_string` makes of a text: on success the
/// class of the decoded strkey, on failure the message of its `DecodeError`.
pub uninterp spec fn strkey_decoding(text: Seq<char>) -> Result<StrkeyClass, Seq<char>>;

/// Calls `stellar_strkey::Strkey::from_string` (base32 decoding, version byte
/// and CRC16-XMODEM check). The contract claims only that the outcome is a
/// function of the text: the class of the decoded strkey, or the `Display`
/// text of the decode error.
#[verifier::external_body]
pub(crate) fn decode_strkey(text: &str) -> (res: Result<StrkeyClass, String>)
    ensures
        strkey_decoding(text@) == match res {
            Ok(class) => Ok::<StrkeyClass, Seq<char>>(class),
            Err(message) => Err::<StrkeyClass, Seq<char>>(message@),
        },
{
    match Strkey::from_string(text) {
        Ok(Strkey::PublicKeyEd25519(_)) => Ok(StrkeyClass::PublicKeyEd25519),
        Ok(Strkey::MuxedAccountEd25519(_)) => Ok(StrkeyClass::MuxedAccountEd25519),
        Ok(Strkey::Contract(_)) => Ok(StrkeyClass::Contract),
        Ok(_) => Ok(StrkeyClass::Other),
        Err(err) => Err(err.to_string()),
    }
}

} // verus!
