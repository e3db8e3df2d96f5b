//! Stellar asset representation (native XLM and issued credit assets).

use crate::address::{address_outcome, kind_name, validate_address, AddressKind};
use crate::error::{Error, ErrorView};
use crate::text::{chars_of, utf8_byte_len};
use vstd::prelude::*;
use vstd::string::*;
use vstd::utf8::*;

verus! {

/// A Stellar asset: either the native token (XLM) or an issued credit asset identified by an
/// asset code and issuing account.
#[derive(Debug, Clone, PartialEq, Eq)]
pub enum Asset {
    /// The network's native asset, XLM (lumens).
    Native,
    /// An issued asset with a 1-4 character alphanumeric code.
    CreditAlphanum4 { code: String, issuer: String },
    /// An issued asset with a 5-12 character alphanumeric code.
    CreditAlphanum12 { code: String, issuer: String },
}

/// An [`Asset`] with its text fields taken as character sequences.
pub enum AssetView {
    Native,
    CreditAlphanum4 { code: Seq<char>, issuer: Seq<char> },
    CreditAlphanum12 { code: Seq<char>, issuer: Seq<char> },
}

impl View for Asset {
    type V = AssetView;

    open spec fn view(&self) -> AssetView {
        match self {
            Asset::Native => AssetView::Native,
            Asset::CreditAlphanum4 { code, issuer } => AssetView::CreditAlphanum4 {
                code: code@,
                issuer: issuer@,
            },
            Asset::CreditAlphanum12 { code, issuer } => AssetView::CreditAlphanum12 {
                code: code@,
                issuer: issuer@,
            },
        }
    }
}

/// An ASCII letter or digit.
pub open spec fn is_ascii_alphanumeric(c: char) -> bool {
    ('0' <= c && c <= '9') || ('A' <= c && c <= 'Z') || ('a' <= c && c <= 'z')
}

/// Every character of `s` is an ASCII letter or digit.
pub open spec fn all_ascii_alphanumeric(s: Seq<char>) -> bool {
    forall|i: int| 0 <= i < s.len() ==> #[trigger] is_ascii_alphanumeric(s[i])
}

/// What [`Asset::credit`] answers for an asset code and an issuer.
///
/// The code must be 1 to 12 bytes of ASCII letters and digits, and the issuer an
/// account address; codes of up to 4 characters make an `ALPHANUM4` asset, longer
/// ones an `ALPHANUM12` asset.
pub open spec fn credit_outcome(code: Seq<char>, issuer: Seq<char>) -> Result<AssetView, ErrorView> {
    if code.len() == 0 || encode_utf8(code).len() > 12 {
        Err(ErrorView::InvalidAddress { address: code, reason: "asset code must be 1-12 characters"@ })
    } else if !all_ascii_alphanumeric(code) {
        Err(ErrorView::InvalidAddress { address: code, reason: "asset code must be ASCII alphanumeric"@ })
    } else {
        match address_outcome(issuer) {
            Err(e) => Err(e),
            Ok(AddressKind::Account) => if code.len() <= 4 {
                Ok(AssetView::CreditAlphanum4 { code, issuer })
            } else {
                Ok(AssetView::CreditAlphanum12 { code, issuer })
            },
            Ok(kind) => Err(
                ErrorView::InvalidAddress {
                    address: issuer,
                    reason: "asset issuer must be an account address, got "@ + kind_name(kind),
                },
            ),
        }
    }
}

fn is_alphanumeric_char(c: char) -> (b: bool)
    ensures
        b == is_ascii_alphanumeric(c),
{
    ('0' <= c && c <= '9') || ('A' <= c && c <= 'Z') || ('a' <= c && c <= 'z')
}

fn all_alphanumeric(s: &str) -> (b: bool)
    ensures
        b == all_ascii_alphanumeric(s@),
{
    let chars = chars_of(s);
    let mut i: usize = 0;
    while i < chars.len()
        invariant
            chars@ == s@,
            i <= chars.len(),
            forall|j: int| 0 <= j < i ==> #[trigger] is_ascii_alphanumeric(s@[j]),
        decreases chars.len() - i,
    {
        if !is_alphanumeric_char(chars[i]) {
            return false;
        }
        i = i + 1;
    }
    true
}

impl Asset {
    /// Builds an issued credit asset, choosing the correct XDR class (`ALPHANUM4` vs
    /// `ALPHANUM12`) based on the code length and validating the code and issuer.
    pub fn credit(code: &str, issuer: &str) -> (res: Result<Asset, Error>)
        ensures
            match res {
                Ok(asset) => credit_outcome(code@, issuer@) == Ok::<AssetView, ErrorView>(asset@),
                Err(e) => credit_outcome(code@, issuer@) == Err::<AssetView, ErrorView>(e@),
            },
    {
        if code.is_empty() || utf8_byte_len(code) > 12 {
            return Err(
                Error::InvalidAddress {
                    address: String::from_str(code),
                    reason: String::from_str("asset code must be 1-12 characters"),
                },
            );
        }
        if !all_alphanumeric(code) {
            return Err(
                Error::InvalidAddress {
                    address: String::from_str(code),
                    reason: String::from_str("asset code must be ASCII alphanumeric"),
                },
            );
        }
        proof {
            assert forall|i: int| 0 <= i < code@.len() implies '\0' <= #[trigger] code@[i] <= '\u{7f}' by {
                assert(is_ascii_alphanumeric(code@[i]));
            }
            assert(is_ascii_chars(code@));
            is_ascii_chars_encode_utf8(code@);
        }
        match validate_address(issuer) {
            Err(e) => {
                return Err(e);
            },
            Ok(AddressKind::Account) => {},
            Ok(other) => {
                let mut reason = String::from_str("asset issuer must be an account address, got ");
                reason.append(other.name());
                return Err(Error::InvalidAddress { address: String::from_str(issuer), reason });
            },
        }
        if code.unicode_len() <= 4 {
            Ok(Asset::CreditAlphanum4 { code: String::from_str(code), issuer: String::from_str(issuer) })
        } else {
            Ok(Asset::CreditAlphanum12 { code: String::from_str(code), issuer: String::from_str(issuer) })
        }
    }

    /// Returns `true` if this is the native XLM asset.
    pub fn is_native(&self) -> (native: bool)
        ensures
            native == (self is Native),
    {
        matches!(self, Asset::Native)
    }
}

} // verus!
