use ferrispizza::billing::BillingEngine;
use ferrispizza::idgen::IdGenerator;
use ferrispizza::order::{order, OrderStatus};
use ferrispizza::pizza::Pizza;
use ferrispizza::store::SharedOrderState;

#[test]
fn new_order_has_created_status() {
    let mut gen = IdGenerator::new();
    let pizzas = vec![Pizza::margherita()];
    let order = order::new(&mut gen, pizzas);
    assert_eq!(order.status, OrderStatus::Created);
}

#[test]
fn calculate_total_for_multiple_pizzas() {
    let mut gen = IdGenerator::new();
    let pizzas = vec![
        Pizza::margherita(),
        Pizza::cheese(Pizza::margherita()),
    ];

    let order = order::new(&mut gen, pizzas);
    assert_eq!(order.total_cost(), 120 + 130);
}

#[test]
fn order_status_transitions() {
    let mut gen = IdGenerator::new();
    let pizzas = vec![Pizza::margherita()];
    let mut order = order::new(&mut gen, pizzas);

    order.mark_paid();
    assert_eq!(order.status, OrderStatus::Paid);

    order.mark_completed();
    assert_eq!(order.status, OrderStatus::Completed);
}

#[test]
fn empty_order_costs_nothing() {
    let mut gen = IdGenerator::new();
    let order = order::new(&mut gen, vec![]);
    assert_eq!(order.total_cost(), 0);
    assert_eq!(order.total_checked(), Some(0));
}

#[test]
fn order_ids_are_strictly_increasing() {
    let mut gen = IdGenerator::new();
    let o1 = order::new(&mut gen, vec![Pizza::margherita()]);
    let o2 = order::new(&mut gen, vec![Pizza::farmhouse()]);
    let o3 = order::new(&mut gen, vec![]);
    assert!(o1.id.0 < o2.id.0);
    assert!(o2.id.0 < o3.id.0);
}

// ---- Billing engine tests ----

#[test]
fn test_calculate_total() {
    let engine = BillingEngine::new();
    let mut gen = IdGenerator::new();

    let pizza1 = Pizza::margherita();
    let pizza2 = Pizza::cheese(Pizza::margherita());

    let order = order::new(&mut gen, vec![pizza1, pizza2]);
    let total = engine.calculate_total(&order);

    assert_eq!(total, 250); // 120 + 130
}

#[test]
fn test_generate_receipt() {
    let engine = BillingEngine::new();
    let mut gen = IdGenerator::new();
    let pizza = Pizza::margherita();
    let order = order::new(&mut gen, vec![pizza]);

    let receipt = engine.generate_receipt(&order);

    assert_eq!(receipt.order_id, order.id.0);
    assert_eq!(receipt.total_amount, 120);
    assert!(receipt.timestamp > 0);
}

// ---- Store tests ----

#[test]
fn test_shared_state_updates() {
    let mut state = SharedOrderState::new();
    let mut gen = IdGenerator::new();

    let order1 = order::new(&mut gen, vec![Pizza::margherita()]);
    let order2 = order::new(&mut gen, vec![Pizza::margherita()]);

    state.add_order(order1);
    state.add_order(order2);

    let orders = state.list_orders();

    assert_eq!(orders.len(), 2);
}

#[test]
fn add_then_get_returns_equal_order() {
    let mut state = SharedOrderState::new();
    let mut gen = IdGenerator::new();

    let o = order::new(
        &mut gen,
        vec![Pizza::margherita(), Pizza::cheese(Pizza::farmhouse())],
    );
    let id = o.id.0;
    let expected_total = o.total_cost();
    let expected_count = o.pizzas.len();

    state.add_order(o);
    let got = state.get_order(id).expect("stored order is found");

    assert_eq!(got.total_cost(), expected_total);
    assert_eq!(got.pizzas.len(), expected_count);
    assert_eq!(got.id.0, id);
}

#[test]
fn add_overwrites_by_identifier() {
    let mut state = SharedOrderState::new();
    let mut gen = IdGenerator::new();

    let o1 = order::new(&mut gen, vec![Pizza::margherita()]);
    let id = o1.id.0;
    let mut o2 = o1.clone();
    o2.pizzas.push(Pizza::farmhouse());

    state.add_order(o1);
    state.add_order(o2);

    assert_eq!(state.list_orders().len(), 1);
    let got = state.get_order(id).unwrap();
    assert_eq!(got.pizzas.len(), 2);
}

#[test]
fn get_missing_order_is_none() {
    let state = SharedOrderState::new();
    assert!(state.get_order(42).is_none());
}

// ---- Identifier generator tests ----

#[test]
fn id_generator_counts_from_one() {
    let mut gen = IdGenerator::new();
    assert_eq!(gen.next_id(), "1");
    assert_eq!(gen.next_id(), "2");
    gen.reset();
    assert_eq!(gen.next_id(), "1");
}

#[test]
fn id_generator_with_prefix() {
    let mut gen = IdGenerator::with_prefix("PZ");
    assert_eq!(gen.next_id(), "PZ-1");
    assert_eq!(gen.next_id(), "PZ-2");
}

#[test]
fn decimal_rendering_is_exact() {
    assert_eq!(ferrispizza::idgen::u64_to_dec_string(0), "0");
    assert_eq!(ferrispizza::idgen::u64_to_dec_string(10), "10");
    assert_eq!(ferrispizza::idgen::u64_to_dec_string(165), "165");
    assert_eq!(
        ferrispizza::idgen::u64_to_dec_string(u64::MAX),
        "18446744073709551615"
    );
}

#[test]
fn log_line_is_timestamp_then_message() {
    assert_eq!(ferrispizza::clock::log_line(1700000000, "paid"), "[1700000000] paid");
    assert_eq!(ferrispizza::clock::log_line(0, ""), "[0] ");
}

// ---- Display rendering ----

#[test]
fn render_shows_items_total_and_status() {
    let mut gen = IdGenerator::new();
    let order = order::new(
        &mut gen,
        vec![Pizza::margherita(), Pizza::cheese(Pizza::margherita())],
    );
    assert_eq!(
        order.render(),
        "Order #1\nPizzas: Margherita (120), Margherita + Cheese (130)\nTotal: 250\nStatus: Created"
    );
}
