//! Payment request definitions.

use crate::asset::Asset;
use vstd::prelude::*;
use vstd::string::*;

verus! {

/// A request to pay `amount` of `asset` to `destination`, with an optional memo.
///
/// This is the input to [`crate::payment::build_payment_transaction`], which turns it into an
/// unsigned [`crate::builder::Transaction`] against a given source account and sequence number.
#[derive(Debug, Clone, PartialEq, Eq)]
pub struct PaymentRequest {
    pub destination: String,
    pub asset: Asset,
    pub amount: String,
    pub memo: Option<String>,
}

/// The memo text of a request, taken as a character sequence.
pub open spec fn memo_text_view(memo: Option<String>) -> Option<Seq<char>> {
    match memo {
        Some(m) => Some(m@),
        None => None,
    }
}

impl PaymentRequest {
    /// A native XLM payment with no memo.
    pub fn xlm(destination: &str, amount: &str) -> (request: Self)
        ensures
            request.destination@ == destination@,
            request.asset == Asset::Native,
            request.amount@ == amount@,
            request.memo is None,
    {
        Self {
            destination: String::from_str(destination),
            asset: Asset::Native,
            amount: String::from_str(amount),
            memo: None,
        }
    }

    /// Attaches a text memo to this request.
    pub fn with_memo(self, memo: &str) -> (request: Self)
        ensures
            request.destination == self.destination,
            request.asset == self.asset,
            request.amount == self.amount,
            memo_text_view(request.memo) == Some(memo@),
    {
        let mut request = self;
        request.memo = Some(String::from_str(memo));
        request
    }
}

} // verus!
