use ferrispizza::commands::{Command, PaymentMethodCommand, PizzaSelection};

fn toks(words: &[&str]) -> Vec<String> {
    words.iter().map(|w| w.to_string()).collect()
}

#[test]
fn test_parse_menu() {
    assert_eq!(Command::parse(&toks(&["menu"])), Some(Command::Menu));
}

#[test]
fn test_parse_exit() {
    assert_eq!(Command::parse(&toks(&["exit"])), Some(Command::Exit));
}

#[test]
fn test_parse_single_order() {
    let parsed = Command::parse(&toks(&["order", "margherita"]));
    assert_eq!(
        parsed,
        Some(Command::PlaceOrder {
            items: vec![PizzaSelection::Margherita]
        })
    );
}

#[test]
fn test_parse_multi_pizza_order() {
    let parsed = Command::parse(&toks(&["order", "margherita", "farmhouse"]));
    assert_eq!(
        parsed,
        Some(Command::PlaceOrder {
            items: vec![PizzaSelection::Margherita, PizzaSelection::Farmhouse]
        })
    );
}

#[test]
fn test_parse_payment_upi() {
    let parsed = Command::parse(&toks(&["pay", "1", "upi"]));
    assert_eq!(
        parsed,
        Some(Command::Pay {
            order_id: 1,
            method: PaymentMethodCommand::UPI
        })
    );
}

#[test]
fn test_parse_invalid() {
    assert_eq!(Command::parse(&toks(&["unknown"])), None);
}

#[test]
fn parse_empty_input_is_invalid() {
    assert_eq!(Command::parse(&toks(&[])), None);
}

#[test]
fn parse_order_with_bad_token_is_invalid() {
    assert_eq!(Command::parse(&toks(&["order", "margherita", "pineapple"])), None);
}

#[test]
fn parse_order_without_items_is_empty_order() {
    assert_eq!(
        Command::parse(&toks(&["order"])),
        Some(Command::PlaceOrder { items: vec![] })
    );
}

#[test]
fn parse_pay_card() {
    assert_eq!(
        Command::parse(&toks(&["pay", "7", "card"])),
        Some(Command::Pay {
            order_id: 7,
            method: PaymentMethodCommand::Card
        })
    );
}

#[test]
fn parse_pay_rejects_bad_id_and_method() {
    assert_eq!(Command::parse(&toks(&["pay", "abc", "upi"])), None);
    assert_eq!(Command::parse(&toks(&["pay", "1", "cash"])), None);
    assert_eq!(Command::parse(&toks(&["pay", "1"])), None);
    assert_eq!(Command::parse(&toks(&["pay"])), None);
}

#[test]
fn parse_pay_id_bounds() {
    assert_eq!(
        Command::parse(&toks(&["pay", "18446744073709551615", "upi"])),
        Some(Command::Pay {
            order_id: u64::MAX,
            method: PaymentMethodCommand::UPI
        })
    );
    assert_eq!(Command::parse(&toks(&["pay", "18446744073709551616", "upi"])), None);
    assert_eq!(Command::parse(&toks(&["pay", "", "upi"])), None);
}
