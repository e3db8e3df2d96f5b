//! Transaction time bounds.
//!
//! Time bounds restrict the window (as Unix timestamps) during which a transaction is valid for
//! submission to the network, which is what makes signed-but-unsubmitted transactions safely
//! expire.

use crate::text::{decimal, push_decimal};
use crate::tx_error::{TxError, TxErrorView};
use vstd::prelude::*;
use vstd::string::*;

verus! {

/// A valid submission window for a transaction, as Unix timestamps (seconds since epoch).
///
/// `max_time == 0` means "no upper bound" in Stellar's XDR representation, but an explicit
/// upper bound is required here via [`TimeBounds::new`] or [`TimeBounds::valid_for`] to avoid
/// transactions that never expire.
#[derive(Debug, Clone, Copy, PartialEq, Eq, Structural)]
pub struct TimeBounds {
    pub min_time: u64,
    pub max_time: u64,
}

/// The reason given when `max_time` is not after `min_time`.
pub open spec fn bounds_order_reason(min_time: u64, max_time: u64) -> Seq<char> {
    "max_time ("@ + decimal(max_time as nat) + ") must be after min_time ("@ + decimal(
        min_time as nat,
    ) + ")"@
}

impl TimeBounds {
    /// Whether `timestamp` lies in the closed window `[min_time, max_time]`.
    pub open spec fn spec_contains(self, timestamp: u64) -> bool {
        self.min_time <= timestamp && timestamp <= self.max_time
    }

    /// Builds explicit time bounds, validating that `max_time` is strictly after `min_time`.
    pub fn new(min_time: u64, max_time: u64) -> (res: Result<Self, TxError>)
        ensures
            res is Ok <==> min_time < max_time,
            res matches Ok(bounds) ==> bounds.min_time == min_time && bounds.max_time == max_time,
            res matches Err(e) ==> e@ == TxErrorView::InvalidMemo(
                bounds_order_reason(min_time, max_time),
            ),
    {
        if max_time <= min_time {
            let mut reason = String::from_str("max_time (");
            push_decimal(&mut reason, max_time as u128);
            reason.append(") must be after min_time (");
            push_decimal(&mut reason, min_time as u128);
            reason.append(")");
            return Err(TxError::InvalidMemo(reason));
        }
        Ok(Self { min_time, max_time })
    }

    /// Time bounds valid from `now` for `valid_seconds` seconds.
    pub fn valid_for(now: u64, valid_seconds: u64) -> (res: Result<Self, TxError>)
        requires
            now + valid_seconds <= u64::MAX,
        ensures
            res is Ok <==> valid_seconds > 0,
            res matches Ok(bounds) ==> bounds.min_time == now && bounds.max_time == now
                + valid_seconds,
            res matches Err(e) ==> e@ == TxErrorView::InvalidMemo(
                bounds_order_reason(now, (now + valid_seconds) as u64),
            ),
    {
        Self::new(now, now + valid_seconds)
    }

    /// Checks that `max_time` is strictly after `min_time`, as [`TimeBounds::new`] does, with
    /// the same error.
    pub fn validate(&self) -> (res: Result<(), TxError>)
        ensures
            res is Ok <==> self.min_time < self.max_time,
            res matches Err(e) ==> e@ == TxErrorView::InvalidMemo(
                bounds_order_reason(self.min_time, self.max_time),
            ),
    {
        match TimeBounds::new(self.min_time, self.max_time) {
            Ok(_) => Ok(()),
            Err(e) => Err(e),
        }
    }

    /// Returns `true` if `timestamp` falls within `[min_time, max_time]`.
    pub fn contains(&self, timestamp: u64) -> (inside: bool)
        ensures
            inside == self.spec_contains(timestamp),
    {
        timestamp >= self.min_time && timestamp <= self.max_time
    }
}

/// Bounds that [`TimeBounds::new`] accepts contain both of their endpoints, and a
/// timestamp outside them is never contained.
pub proof fn lemma_accepted_bounds_contain_endpoints(bounds: TimeBounds, timestamp: u64)
    requires
        bounds.min_time < bounds.max_time,
    ensures
        bounds.spec_contains(bounds.min_time),
        bounds.spec_contains(bounds.max_time),
        timestamp < bounds.min_time ==> !bounds.spec_contains(timestamp),
        timestamp > bounds.max_time ==> !bounds.spec_contains(timestamp),
{
}

} // verus!
