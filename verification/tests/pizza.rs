use ferrispizza::pizza::Pizza;

// ---- Base pizza tests ----

#[test]
fn margherita_description_and_cost() {
    let p = Pizza::margherita();
    assert_eq!(p.description(), "Margherita");
    assert_eq!(p.cost(), 120);
}

#[test]
fn farmhouse_description_and_cost() {
    let p = Pizza::farmhouse();
    assert_eq!(p.description(), "Farmhouse");
    assert_eq!(p.cost(), 150);
}

// ---- Decorator tests ----
// The decorator tests wrap a base priced at 100.

#[test]
fn cheese_decorator_adds_cost() {
    let p = Pizza::cheese(Pizza::margherita_with_price(100));
    assert_eq!(p.description(), "Margherita + Cheese");
    assert_eq!(p.cost(), 110); // +10
}

#[test]
fn olives_decorator_adds_cost() {
    let p = Pizza::olives(Pizza::margherita_with_price(100));
    assert_eq!(p.description(), "Margherita + Olives");
    assert_eq!(p.cost(), 115); // +15
}

#[test]
fn jalapenos_decorator_adds_cost() {
    let p = Pizza::jalapenos(Pizza::margherita_with_price(100));
    assert_eq!(p.description(), "Margherita + Jalapenos");
    assert_eq!(p.cost(), 112); // +12
}

#[test]
fn multiple_decorators_accumulate() {
    let p = Pizza::cheese(Pizza::olives(Pizza::margherita_with_price(100)));
    assert_eq!(p.description(), "Margherita + Olives + Cheese");
    assert_eq!(p.cost(), 125); // 100 + 15 + 10
}

#[test]
fn test_thin_crust_margherita() {
    let crust = Pizza::thin_crust(Pizza::margherita());

    assert_eq!(crust.description(), "Margherita, Thin Crust");
    assert_eq!(crust.cost(), 120 + 20);
}

#[test]
fn test_thick_crust_farmhouse() {
    let crust = Pizza::cheese_burst(Pizza::farmhouse());

    assert_eq!(crust.description(), "Farmhouse, CheeseBurst Crust");
    assert_eq!(crust.cost(), 150 + 50);
}

// ---- Menu-style tests ----

#[test]
fn test_menu_pizzas_base_costs() {
    let m = Pizza::margherita();
    let f = Pizza::farmhouse();

    assert_eq!(m.description(), "Margherita");
    assert_eq!(m.cost(), 120);

    assert_eq!(f.description(), "Farmhouse");
    assert_eq!(f.cost(), 150);
}

#[test]
fn test_menu_toppings_and_crusts() {
    let pizza = Pizza::margherita();
    let pizza = Pizza::cheese(pizza); // +10
    let pizza = Pizza::olives(pizza); // +15
    let pizza = Pizza::thin_crust(pizza); // +20

    assert_eq!(pizza.description(), "Margherita + Cheese + Olives, Thin Crust");
    assert_eq!(pizza.cost(), 120 + 10 + 15 + 20);
}

#[test]
fn test_multi_pizza_order_menu_style() {
    let p1 = Pizza::margherita();
    let p2 = Pizza::thin_crust(Pizza::cheese(Pizza::farmhouse()));

    assert_eq!(p1.cost(), 120);
    assert_eq!(p2.cost(), 150 + 10 + 20); // farmhouse + cheese + thin crust
}

// Wrapping order changes the description but never the total: a base at
// 120 with toppings +10 and +15 and a crust +20 costs 165 however the
// layers are ordered.
#[test]
fn wrap_order_does_not_change_cost() {
    let a = Pizza::thin_crust(Pizza::olives(Pizza::cheese(Pizza::margherita())));
    let b = Pizza::cheese(Pizza::thin_crust(Pizza::olives(Pizza::margherita())));
    let c = Pizza::olives(Pizza::cheese(Pizza::thin_crust(Pizza::margherita())));

    assert_eq!(a.cost(), 165);
    assert_eq!(b.cost(), 165);
    assert_eq!(c.cost(), 165);

    assert_ne!(a.description(), b.description());
}

#[test]
fn cost_checked_reports_overflow() {
    let p = Pizza::cheese_with_price(Pizza::margherita_with_price(u64::MAX), 1);
    assert_eq!(p.cost_checked(), None);

    let q = Pizza::cheese(Pizza::margherita());
    assert_eq!(q.cost_checked(), Some(130));
}

#[test]
fn clone_copies_the_whole_chain() {
    let p = Pizza::thin_crust(Pizza::cheese(Pizza::farmhouse()));
    let q = p.clone();
    assert_eq!(p.description(), q.description());
    assert_eq!(p.cost(), q.cost());
}
