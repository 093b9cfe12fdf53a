use ferrispizza::billing::BillingEngine;
use ferrispizza::commands::{pay_order, place_order, PaymentMethodCommand, PizzaSelection};
use ferrispizza::errors::{BillingError, OrderError};
use ferrispizza::idgen::IdGenerator;
use ferrispizza::order::order;
use ferrispizza::payment::{card_tail, CardPayment, PaymentAdapter, UpiPayment, PPM_SCALE};
use ferrispizza::pizza::Pizza;
use ferrispizza::store::SharedOrderState;

/// Helper: build a sample order of one plain Margherita and one with
/// cheese (120 + 130).
fn sample_order() -> order {
    let mut gen = IdGenerator::new();
    let pizzas = vec![Pizza::margherita(), Pizza::cheese(Pizza::margherita())];
    order::new(&mut gen, pizzas)
}

#[test]
fn upi_adapter_succeeds_when_success_rate_is_1() {
    let order = sample_order();
    let upi = UpiPayment::with_success_rate("user@upi", PPM_SCALE);
    let result = upi.pay(&order);
    assert!(result.is_ok());
    let receipt = result.unwrap();
    assert_eq!(receipt.total_amount, 250); // 120 + 130
}

#[test]
fn upi_adapter_fails_when_success_rate_is_0() {
    let order = sample_order();
    let upi = UpiPayment::with_success_rate("user@upi", 0);
    let result = upi.pay(&order);
    assert!(result.is_err());
}

#[test]
fn card_adapter_succeeds_with_valid_cvv() {
    let order = sample_order();
    let card = CardPayment::new("4111222233334444", 123);
    let res = card.pay(&order);
    assert!(res.is_ok());
    assert_eq!(res.unwrap().total_amount, 250);
}

#[test]
fn card_adapter_fails_with_invalid_cvv() {
    let order = sample_order();
    let mut card = CardPayment::new("4111222233334444", 12); // invalid CVV
    card.fail_on_invalid_cvv = true;
    let res = card.pay(&order);
    assert!(res.is_err());
}

#[test]
fn card_adapter_allows_when_fail_flag_disabled() {
    let order = sample_order();
    let mut card = CardPayment::new("4111222233334444", 12);
    card.fail_on_invalid_cvv = false; // test mode: allow even an invalid cvv
    let res = card.pay(&order);
    assert!(res.is_ok());
}

#[test]
fn card_cvv_range_bounds() {
    let order = sample_order();
    assert!(CardPayment::new("4111222233334444", 100).pay(&order).is_ok());
    assert!(CardPayment::new("4111222233334444", 999).pay(&order).is_ok());
    assert!(CardPayment::new("4111222233334444", 99).pay(&order).is_err());
    assert!(CardPayment::new("4111222233334444", 1000).pay(&order).is_err());
}

// ---- Integration-style tests ----

#[test]
fn test_integration_upi_success() {
    let order = sample_order();
    let upi = UpiPayment::with_success_rate("tester@upi", PPM_SCALE); // force success

    let receipt = upi.pay(&order).expect("UPI should succeed");
    assert!(receipt.total_amount > 0);
    assert_eq!(receipt.total_amount, 250); // 120 + 130
}

#[test]
fn test_integration_upi_failure() {
    let order = sample_order();
    let upi = UpiPayment::with_success_rate("fail@upi", 0); // force fail

    let result = upi.pay(&order);
    assert!(result.is_err());
}

#[test]
fn test_integration_card_success() {
    let order = sample_order();
    let card = CardPayment::new("4111222233334444", 123);

    let receipt = card.pay(&order).expect("Card should succeed");
    assert_eq!(receipt.total_amount, 250);
}

#[test]
fn test_integration_card_invalid_cvv() {
    let order = sample_order();
    let card = CardPayment::new("4111222233334444", 12); // invalid CVV

    let result = card.pay(&order);
    assert!(result.is_err());
}

#[test]
fn test_integration_payment_trait_object() {
    let order = sample_order();
    let adapter: Box<dyn PaymentAdapter> = Box::new(CardPayment::new("4111222233334444", 123));

    let receipt = adapter.pay(&order).expect("Trait object card pay");
    assert_eq!(receipt.total_amount, 250);
}

#[test]
fn test_integration_billing_engine_receipt() {
    let order = sample_order();
    let engine = BillingEngine::new();
    let receipt = engine.generate_receipt(&order);

    assert_eq!(receipt.total_amount, 250);
    assert!(receipt.order_id > 0);
    assert!(receipt.timestamp > 0);
}

// ---- Whole flow: place an order, pay via wallet ----

#[test]
fn order_of_base_and_topped_pizza_pays_250_via_wallet() {
    let mut state = SharedOrderState::new();
    let mut gen = IdGenerator::new();

    // One base pizza (120) and one topped pizza (120 + 10 = 130).
    let o = order::new(
        &mut gen,
        vec![Pizza::margherita(), Pizza::cheese(Pizza::margherita())],
    );
    let id = o.id.0;
    assert_eq!(o.total_cost(), 250);
    state.add_order(o);

    // Paying via the wallet, configured to always succeed, returns a
    // receipt carrying the order total.
    let receipt = pay_order(&state, id, PaymentMethodCommand::UPI).expect("wallet pays");
    assert_eq!(receipt.order_id, id);
    assert_eq!(receipt.total_amount, 250);

    let receipt2 = pay_order(&state, id, PaymentMethodCommand::Card).expect("card pays");
    assert_eq!(receipt2.total_amount, 250);
}

#[test]
fn place_order_stores_the_selected_pizzas() {
    let mut state = SharedOrderState::new();
    let mut gen = IdGenerator::new();

    let id = place_order(
        &mut state,
        &mut gen,
        vec![PizzaSelection::Margherita, PizzaSelection::CheeseBurstFarmhouse],
    )
    .expect("placing succeeds");

    let stored = state.get_order(id).expect("order stored");
    assert_eq!(stored.pizzas.len(), 2);
    assert_eq!(stored.total_cost(), 120 + 200);
}

// ---- Error texts ----

#[test]
fn billing_error_messages() {
    assert_eq!(
        BillingError::PaymentFailed("Invalid CVV".to_string()).message(),
        "Payment failed: Invalid CVV"
    );
    assert_eq!(
        BillingError::InvoiceError("no total".to_string()).message(),
        "Invoice generation failed: no total"
    );
    assert_eq!(
        BillingError::InvalidPaymentMethod.message(),
        "Invalid payment method selected"
    );
}

#[test]
fn order_error_messages() {
    assert_eq!(OrderError::NoPizza.message(), "Pizza not selected");
    assert_eq!(OrderError::NoCustomerName.message(), "Customer name missing");
    assert_eq!(
        OrderError::QueueError("closed".to_string()).message(),
        "Order queue failure: closed"
    );
}

#[test]
fn upi_failure_carries_its_message() {
    let order = sample_order();
    let upi = UpiPayment::with_success_rate("fail@upi", 0);
    match upi.pay(&order) {
        Err(BillingError::PaymentFailed(m)) => assert_eq!(m, "UPI transaction rejected"),
        other => panic!("expected a payment failure, got {:?}", other),
    }
}

#[test]
fn card_failure_carries_its_message() {
    let order = sample_order();
    let card = CardPayment::new("4111222233334444", 12);
    match card.pay(&order) {
        Err(BillingError::PaymentFailed(m)) => assert_eq!(m, "Invalid CVV"),
        other => panic!("expected a payment failure, got {:?}", other),
    }
}

// ---- Masked card logging helper ----

#[test]
fn card_tail_masks_all_but_last_four() {
    assert_eq!(card_tail("4111222233334444"), "4444");
    assert_eq!(card_tail("123"), "123");
    assert_eq!(card_tail(""), "");
}

#[test]
fn upi_success_rate_is_clamped() {
    let upi = UpiPayment::with_success_rate("user@upi", PPM_SCALE + 5);
    assert_eq!(upi.success_rate_ppm, PPM_SCALE);
}
