//! Billing engine: computes an order's total and produces a timestamped
//! payment receipt.

use vstd::prelude::*;

use crate::clock::now_millis;
use crate::order::{order, total_of};

verus! {

/// Receipt generated after successful payment processing: order
/// identifier, total billed amount, and generation timestamp.
#[derive(Clone, Copy, Debug, PartialEq, Eq, Structural)]
pub struct PaymentReceipt {
    pub order_id: u64,
    pub total_amount: u64,
    pub timestamp: u64,
}

/// Computes total order cost and produces receipts.
pub struct BillingEngine;

impl BillingEngine {
    /// A new billing engine.
    pub fn new() -> (r: Self) {
        BillingEngine
    }

    /// The total cost of the given order: the sum of its items' costs,
    /// 0 for an empty order.
    pub fn calculate_total(&self, o: &order) -> (r: u64)
        requires
            total_of(o@) <= u64::MAX,
        ensures
            r == total_of(o@),
    {
        o.total_cost()
    }

    /// A receipt for the given order, carrying its identifier, its
    /// computed total, and the current wall-clock time.
    pub fn generate_receipt(&self, o: &order) -> (r: PaymentReceipt)
        requires
            total_of(o@) <= u64::MAX,
        ensures
            r.order_id == o@.id,
            r.total_amount == total_of(o@),
    {
        PaymentReceipt {
            order_id: o.id.0,
            total_amount: self.calculate_total(o),
            timestamp: now_millis(),
        }
    }
}

} // verus!
