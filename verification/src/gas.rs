//! The gas ledger of one activation frame: limit, remaining and refund
//! counters, and the spec-versioned refund cap.

use vstd::prelude::*;
use crate::primitives::SpecId;

verus! {

/// Gas ledger for one activation frame.
///
/// `remaining` never exceeds `limit`, and `refunded` never goes negative:
/// every operation below preserves `wf`.
#[derive(Clone, Copy, PartialEq, Eq, Structural, Debug)]
pub struct Gas {
    pub limit: u64,
    pub remaining: u64,
    pub refunded: i64,
}

/// Divisor of the refund cap: gas spent may be refunded up to a fifth
/// from London onward, up to half before.
pub open spec fn spec_refund_divisor(spec_id: SpecId) -> int {
    if spec_id.spec_is_london_or_later() {
        5
    } else {
        2
    }
}

/// The final refund of a ledger: the accumulated refund, capped at the
/// gas spent divided by the revision's divisor.
pub open spec fn spec_capped_refund(limit: u64, remaining: u64, refunded: i64, spec_id: SpecId) -> int {
    let cap = (limit - remaining) / spec_refund_divisor(spec_id);
    if refunded <= cap {
        refunded as int
    } else {
        cap
    }
}

impl Gas {
    pub open spec fn wf(self) -> bool {
        self.remaining <= self.limit && 0 <= self.refunded
    }

    /// Gas spent so far: the part of the limit no longer remaining.
    pub open spec fn spec_spend(self) -> int {
        self.limit - self.remaining
    }

    /// A fresh ledger: all of the limit remaining, nothing refunded.
    pub fn new(limit: u64) -> (r: Gas)
        ensures
            r == (Gas { limit, remaining: limit, refunded: 0i64 }),
            r.wf(),
    {
        Gas { limit, remaining: limit, refunded: 0 }
    }

    pub fn limit(&self) -> (r: u64)
        ensures
            r == self.limit,
    {
        self.limit
    }

    pub fn remaining(&self) -> (r: u64)
        ensures
            r == self.remaining,
    {
        self.remaining
    }

    pub fn refunded(&self) -> (r: i64)
        ensures
            r == self.refunded,
    {
        self.refunded
    }

    pub fn spend(&self) -> (r: u64)
        requires
            self.remaining <= self.limit,
        ensures
            r == self.spec_spend(),
    {
        self.limit - self.remaining
    }

    /// Charges `cost` against the remaining gas.  Underflow is a hard
    /// execution failure, reported by the `false` return with the ledger
    /// untouched, never a silent clamp.
    pub fn record_cost(&mut self, cost: u64) -> (success: bool)
        ensures
            success == (cost <= old(self).remaining),
            success ==> *final(self) == (Gas {
                limit: old(self).limit,
                remaining: (old(self).remaining - cost) as u64,
                refunded: old(self).refunded,
            }),
            !success ==> *final(self) == *old(self),
    {
        if cost <= self.remaining {
            self.remaining = self.remaining - cost;
            true
        } else {
            false
        }
    }

    /// Restores `returned` gas to the remaining counter, used when a
    /// transaction-level ledger is replayed after a frame finishes.
    pub fn erase_cost(&mut self, returned: u64)
        requires
            old(self).remaining + returned <= old(self).limit,
        ensures
            *final(self) == (Gas {
                limit: old(self).limit,
                remaining: (old(self).remaining + returned) as u64,
                refunded: old(self).refunded,
            }),
    {
        self.remaining = self.remaining + returned;
    }

    /// Accumulates a refund.  The running total stays within `0..=i64::MAX`,
    /// which the machine word forces.
    pub fn record_refund(&mut self, refund: i64)
        requires
            0 <= old(self).refunded + refund <= i64::MAX,
        ensures
            *final(self) == (Gas {
                limit: old(self).limit,
                remaining: old(self).remaining,
                refunded: (old(self).refunded + refund) as i64,
            }),
    {
        self.refunded = self.refunded + refund;
    }

    /// Recomputes the refund counter as the final, capped refund of the
    /// revision.  One-way, and idempotent when reapplied with the same
    /// spend.
    pub fn set_final_refund(&mut self, spec_id: SpecId)
        requires
            old(self).wf(),
        ensures
            final(self).limit == old(self).limit,
            final(self).remaining == old(self).remaining,
            final(self).refunded == spec_capped_refund(
                old(self).limit,
                old(self).remaining,
                old(self).refunded,
                spec_id,
            ),
            final(self).wf(),
    {
        let divisor: u64 = if spec_id.is_london_or_later() {
            5
        } else {
            2
        };
        let cap: u64 = (self.limit - self.remaining) / divisor;
        if (self.refunded as u64) > cap {
            self.refunded = cap as i64;
        }
    }
}

} // verus!
