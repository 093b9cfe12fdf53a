//! Typed errors of the ordering and billing domain.

use vstd::prelude::*;
use vstd::string::StringExecFns;

verus! {

/// Failures that may occur during billing operations.
#[derive(Debug)]
pub enum BillingError {
    /// Payment processing failed, with a message saying why.
    PaymentFailed(String),
    /// Invoice generation failed, with a message describing the issue.
    InvoiceError(String),
    /// The selected payment method is not supported or invalid.
    InvalidPaymentMethod,
}

/// Failures that may occur while creating or processing an order.
#[derive(Debug)]
pub enum OrderError {
    /// No pizza was selected when attempting to place an order.
    NoPizza,
    /// Customer name is missing or empty.
    NoCustomerName,
    /// Error while interacting with the internal order queue.
    QueueError(String),
}

/// The diagnostic text of a billing error.
pub open spec fn billing_error_text(e: BillingError) -> Seq<char> {
    match e {
        BillingError::PaymentFailed(m) => "Payment failed: "@ + m@,
        BillingError::InvoiceError(m) => "Invoice generation failed: "@ + m@,
        BillingError::InvalidPaymentMethod => "Invalid payment method selected"@,
    }
}

/// The diagnostic text of an order error.
pub open spec fn order_error_text(e: OrderError) -> Seq<char> {
    match e {
        OrderError::NoPizza => "Pizza not selected"@,
        OrderError::NoCustomerName => "Customer name missing"@,
        OrderError::QueueError(m) => "Order queue failure: "@ + m@,
    }
}

impl BillingError {
    /// Render the error as its diagnostic line.
    pub fn message(&self) -> (r: String)
        ensures
            r@ == billing_error_text(*self),
    {
        match self {
            BillingError::PaymentFailed(m) => {
                let mut s = String::from_str("Payment failed: ");
                s.append(m.as_str());
                s
            },
            BillingError::InvoiceError(m) => {
                let mut s = String::from_str("Invoice generation failed: ");
                s.append(m.as_str());
                s
            },
            BillingError::InvalidPaymentMethod => String::from_str(
                "Invalid payment method selected",
            ),
        }
    }
}

impl OrderError {
    /// Render the error as its diagnostic line.
    pub fn message(&self) -> (r: String)
        ensures
            r@ == order_error_text(*self),
    {
        match self {
            OrderError::NoPizza => String::from_str("Pizza not selected"),
            OrderError::NoCustomerName => String::from_str("Customer name missing"),
            OrderError::QueueError(m) => {
                let mut s = String::from_str("Order queue failure: ");
                s.append(m.as_str());
                s
            },
        }
    }
}

} // verus!
