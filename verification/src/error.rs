//! The error type shared by address, asset and network operations.

use vstd::prelude::*;
use vstd::string::*;

verus! {

/// A structured error returned by the core operations (addresses, assets, networks).
#[derive(Debug)]
pub enum Error {
    /// A Stellar address (account, contract, or muxed address) failed strkey validation.
    InvalidAddress { address: String, reason: String },
    /// A network configuration value was invalid (e.g. an empty URL).
    InvalidNetworkConfig(String),
    /// A lower-level I/O or transport failure occurred.
    Transport(String),
}

/// An [`Error`] with its text fields taken as character sequences.
pub enum ErrorView {
    InvalidAddress { address: Seq<char>, reason: Seq<char> },
    InvalidNetworkConfig(Seq<char>),
    Transport(Seq<char>),
}

impl View for Error {
    type V = ErrorView;

    open spec fn view(&self) -> ErrorView {
        match self {
            Error::InvalidAddress { address, reason } => ErrorView::InvalidAddress {
                address: address@,
                reason: reason@,
            },
            Error::InvalidNetworkConfig(reason) => ErrorView::InvalidNetworkConfig(reason@),
            Error::Transport(reason) => ErrorView::Transport(reason@),
        }
    }
}

impl ErrorView {
    /// The human-readable message of the error.
    pub open spec fn message(self) -> Seq<char> {
        match self {
            ErrorView::InvalidAddress { address, reason } => "invalid Stellar address `"@ + address
                + "`: "@ + reason,
            ErrorView::InvalidNetworkConfig(reason) => "invalid network configuration: "@ + reason,
            ErrorView::Transport(reason) => "transport error: "@ + reason,
        }
    }
}

/// A result whose error is taken by its view.
pub open spec fn view_result<T>(r: Result<T, Error>) -> Result<T, ErrorView> {
    match r {
        Ok(v) => Ok(v),
        Err(e) => Err(e@),
    }
}

impl Error {
    /// Renders the error as a human-readable message.
    pub fn to_string(&self) -> (s: String)
        ensures
            s@ == self@.message(),
    {
        match self {
            Error::InvalidAddress { address, reason } => {
                let mut s = String::from_str("invalid Stellar address `");
                s.append(address.as_str());
                s.append("`: ");
                s.append(reason.as_str());
                s
            },
            Error::InvalidNetworkConfig(reason) => {
                let mut s = String::from_str("invalid network configuration: ");
                s.append(reason.as_str());
                s
            },
            Error::Transport(reason) => {
                let mut s = String::from_str("transport error: ");
                s.append(reason.as_str());
                s
            },
        }
    }
}

} // verus!
