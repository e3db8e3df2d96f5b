//! StellarForge: building blocks for Stellar applications — network
//! configuration, strkey address validation, assets, memos, time bounds,
//! payment and contract-call operations, the transaction builder, and the
//! decisions taken around Horizon submission and confirmation polling.
//!
//! Nothing here signs transactions or handles private keys: callers build an
//! unsigned [`Transaction`], sign it with whatever mechanism they trust, and
//! submit the signed envelope themselves.

pub mod address;
pub mod amount;
pub mod arg;
pub mod asset;
pub mod builder;
pub mod confirm;
pub mod error;
pub mod laws;
pub mod memo;
pub mod network;
pub mod operation;
pub mod payment;
pub mod request;
pub mod strkey;
pub mod submit;
pub mod text;
pub mod time_bounds;
pub mod token;
pub mod tx_error;

pub use address::{is_valid_address, validate_address, AddressKind};
pub use arg::ScArg;
pub use asset::Asset;
pub use builder::{Transaction, TransactionBuilder, MAX_OPERATIONS, MIN_BASE_FEE_STROOPS};
pub use confirm::{confirmation_step, ConfirmationOptions, PollAction, PollEvent};
pub use error::Error;
pub use memo::{Memo, MAX_TEXT_MEMO_BYTES};
pub use network::{Network, NetworkConfig, PUBLIC_NETWORK_PASSPHRASE, TESTNET_NETWORK_PASSPHRASE};
pub use operation::Operation;
pub use payment::build_payment_transaction;
pub use request::PaymentRequest;
pub use submit::SubmitResult;
pub use time_bounds::TimeBounds;
pub use token::{build_token_payment_transaction, TokenPaymentRequest};
pub use tx_error::TxError;
