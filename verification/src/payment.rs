//! Payment adapters: a simulated wallet (UPI) transfer with a randomized
//! outcome, and a simulated card charge with verification-code checking.
//!
//! Success probabilities are fixed-point values in parts per million:
//! `PPM_SCALE` stands for probability 1, 0 for probability 0.

use vstd::prelude::*;
use vstd::string::StrSliceExecFns;

use crate::billing::{BillingEngine, PaymentReceipt};
use crate::errors::BillingError;
use crate::order::{order, total_of};

verus! {

/// One whole unit of probability, in parts per million.
pub const PPM_SCALE: u64 = 1000000;

/// Default wallet success probability: 0.8, in parts per million.
pub const DEFAULT_UPI_SUCCESS_PPM: u64 = 800000;

/// Default simulated wallet network delay, in milliseconds.
pub const DEFAULT_UPI_DELAY_MS: u64 = 200;

/// Default simulated card network delay, in milliseconds.
pub const DEFAULT_CARD_DELAY_MS: u64 = 150;

#[verifier::external_type_specification]
#[verifier::external_body]
pub struct ExThreadRng(rand::rngs::ThreadRng);

/// Relies on rand::thread_rng: a handle to the thread-local random
/// number generator.
#[verifier::external_body]
fn fresh_rng() -> rand::rngs::ThreadRng {
    rand::thread_rng()
}

/// Relies on rand::Rng::gen_range over the range 0..bound: the draw lies
/// in that range, which must not be empty. Nothing else is promised of
/// the value.
#[verifier::external_body]
fn draw_below(rng: &mut rand::rngs::ThreadRng, bound: u64) -> (r: u64)
    requires
        bound > 0,
    ensures
        r < bound,
{
    rand::Rng::gen_range(rng, 0..bound)
}

/// A payment strategy: settle an order and hand back a receipt, or a
/// billing failure.
pub trait PaymentAdapter {
    /// Attempt to settle the order.
    fn pay(&self, o: &order) -> (r: Result<PaymentReceipt, BillingError>)
        requires
            total_of(o@) <= u64::MAX,
        ensures
            r matches Ok(rec) ==> rec.order_id == o@.id && rec.total_amount == total_of(o@),
    ;
}

/// Wallet adapters, as a semantic marker.
pub trait UpiAdapter: PaymentAdapter {

}

/// Card adapters, as a semantic marker.
pub trait CardAdapter: PaymentAdapter {

}

/// Simulated wallet (UPI) payment processor. The configured network
/// delay is not performed here; a caller that wants the simulated
/// latency sleeps for `delay_ms` before the attempt.
pub struct UpiPayment {
    pub upi_id: String,
    /// Success probability in parts per million, at most `PPM_SCALE`.
    pub success_rate_ppm: u64,
    /// Simulated network delay in milliseconds.
    pub delay_ms: u64,
}

impl UpiPayment {
    /// A wallet processor with the default success probability.
    pub fn new(upi_id: &str) -> (r: Self)
        ensures
            r.upi_id@ == upi_id@,
            r.success_rate_ppm == DEFAULT_UPI_SUCCESS_PPM,
            r.delay_ms == DEFAULT_UPI_DELAY_MS,
    {
        UpiPayment {
            upi_id: upi_id.to_owned(),
            success_rate_ppm: DEFAULT_UPI_SUCCESS_PPM,
            delay_ms: DEFAULT_UPI_DELAY_MS,
        }
    }

    /// A wallet processor with an explicit success probability; a value
    /// above one whole unit is clamped down to it.
    pub fn with_success_rate(upi_id: &str, success_rate_ppm: u64) -> (r: Self)
        ensures
            r.upi_id@ == upi_id@,
            r.success_rate_ppm == if success_rate_ppm > PPM_SCALE {
                PPM_SCALE
            } else {
                success_rate_ppm
            },
            r.delay_ms == DEFAULT_UPI_DELAY_MS,
    {
        let rate = if success_rate_ppm > PPM_SCALE {
            PPM_SCALE
        } else {
            success_rate_ppm
        };
        UpiPayment {
            upi_id: upi_id.to_owned(),
            success_rate_ppm: rate,
            delay_ms: DEFAULT_UPI_DELAY_MS,
        }
    }

    /// The same processor with another simulated delay.
    pub fn with_delay(self, ms: u64) -> (r: Self)
        ensures
            r.upi_id@ == self.upi_id@,
            r.success_rate_ppm == self.success_rate_ppm,
            r.delay_ms == ms,
    {
        UpiPayment { delay_ms: ms, ..self }
    }

    /// Settle an order against one uniform draw: the attempt succeeds
    /// exactly when the draw falls below the success probability.
    pub fn settle(&self, o: &order, draw: u64) -> (r: Result<PaymentReceipt, BillingError>)
        requires
            total_of(o@) <= u64::MAX,
        ensures
            r is Ok <==> draw < self.success_rate_ppm,
            r matches Ok(rec) ==> rec.order_id == o@.id && rec.total_amount == total_of(o@),
            r matches Err(e) ==> e matches BillingError::PaymentFailed(m) && m@
                == "UPI transaction rejected"@,
    {
        if draw < self.success_rate_ppm {
            let engine = BillingEngine::new();
            Ok(engine.generate_receipt(o))
        } else {
            Err(BillingError::PaymentFailed("UPI transaction rejected".to_owned()))
        }
    }
}

impl PaymentAdapter for UpiPayment {
    /// One payment attempt: draw once, uniformly below `PPM_SCALE`, and
    /// settle. With success probability one whole unit or more the
    /// attempt always succeeds; with probability zero it always fails.
    fn pay(&self, o: &order) -> (r: Result<PaymentReceipt, BillingError>)
        ensures
            self.success_rate_ppm >= PPM_SCALE ==> r is Ok,
            self.success_rate_ppm == 0 ==> r is Err,
            r matches Err(e) ==> e matches BillingError::PaymentFailed(m) && m@
                == "UPI transaction rejected"@,
    {
        let mut rng = fresh_rng();
        let draw = draw_below(&mut rng, PPM_SCALE);
        self.settle(o, draw)
    }
}

impl UpiAdapter for UpiPayment {

}

/// Simulated card payment processor. The verification code must lie in
/// the inclusive range 100..=999 to be valid; when `fail_on_invalid_cvv`
/// is cleared the attempt succeeds even on an invalid code (a
/// test-only bypass). The configured network delay is not performed
/// here; a caller that wants the simulated latency sleeps for
/// `delay_ms` before the attempt.
pub struct CardPayment {
    pub card_number: String,
    pub cvv: u16,
    pub fail_on_invalid_cvv: bool,
    /// Simulated network delay in milliseconds.
    pub delay_ms: u64,
}

impl CardPayment {
    /// A card processor that rejects invalid verification codes.
    pub fn new(card_number: &str, cvv: u16) -> (r: Self)
        ensures
            r.card_number@ == card_number@,
            r.cvv == cvv,
            r.fail_on_invalid_cvv == true,
            r.delay_ms == DEFAULT_CARD_DELAY_MS,
    {
        CardPayment {
            card_number: card_number.to_owned(),
            cvv,
            fail_on_invalid_cvv: true,
            delay_ms: DEFAULT_CARD_DELAY_MS,
        }
    }

    /// Whether the verification code is a plausible three-digit code.
    pub fn validate_cvv(&self) -> (r: bool)
        ensures
            r == (100 <= self.cvv <= 999),
    {
        100 <= self.cvv && self.cvv <= 999
    }
}

impl PaymentAdapter for CardPayment {
    /// One payment attempt: succeeds exactly when the verification code
    /// is valid, or when the permissive bypass flag is cleared.
    fn pay(&self, o: &order) -> (r: Result<PaymentReceipt, BillingError>)
        ensures
            r is Ok <==> (100 <= self.cvv <= 999 || !self.fail_on_invalid_cvv),
            r matches Err(e) ==> e matches BillingError::PaymentFailed(m) && m@
                == "Invalid CVV"@,
    {
        let valid = self.validate_cvv();
        if valid {
            let engine = BillingEngine::new();
            Ok(engine.generate_receipt(o))
        } else if self.fail_on_invalid_cvv {
            Err(BillingError::PaymentFailed("Invalid CVV".to_owned()))
        } else {
            let engine = BillingEngine::new();
            Ok(engine.generate_receipt(o))
        }
    }
}

impl CardAdapter for CardPayment {

}

/// The last four characters of a card number, for masked logging; a
/// shorter number comes back whole.
pub fn card_tail(card_number: &str) -> (r: String)
    ensures
        card_number@.len() >= 4 ==> r@ == card_number@.subrange(
            card_number@.len() - 4,
            card_number@.len() as int,
        ),
        card_number@.len() < 4 ==> r@ == card_number@,
    {
    let n = card_number.unicode_len();
    if n >= 4 {
        card_number.substring_char(n - 4, n).to_owned()
    } else {
        card_number.substring_char(0, n).to_owned()
    }
}

} // verus!
