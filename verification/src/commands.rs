//! Command parsing and execution for the ordering front end: token
//! sequences become typed commands, and the order/payment commands run
//! against the store.

use vstd::prelude::*;
use vstd::string::StrSliceExecFns;

use crate::billing::PaymentReceipt;
use crate::errors::{BillingError, OrderError};
use crate::idgen::IdGenerator;
use crate::order::{order, total_of, OrderStatus};
use crate::payment::{CardPayment, PaymentAdapter, UpiPayment, PPM_SCALE};
use crate::pizza::{Pizza, FARMHOUSE_PRICE, MARGHERITA_PRICE};
use crate::store::SharedOrderState;

verus! {

/// Pizzas a user can select by name.
#[derive(Debug, Clone, PartialEq)]
pub enum PizzaSelection {
    Margherita,
    Farmhouse,
    ThinMargherita,
    CheeseBurstFarmhouse,
}

/// Payment methods a user can select by name.
#[derive(Debug, Clone, PartialEq)]
pub enum PaymentMethodCommand {
    UPI,
    Card,
}

/// A parsed command.
#[derive(Debug, Clone, PartialEq)]
pub enum Command {
    /// Show the menu.
    Menu,
    /// Place an order with the selected pizzas.
    PlaceOrder { items: Vec<PizzaSelection> },
    /// Pay for an order with the selected method.
    Pay { order_id: u64, method: PaymentMethodCommand },
    /// Exit the application.
    Exit,
}

/// The mathematical content of a command.
pub enum CommandView {
    Menu,
    PlaceOrder(Seq<PizzaSelection>),
    Pay(u64, PaymentMethodCommand),
    Exit,
}

impl View for Command {
    type V = CommandView;

    open spec fn view(&self) -> CommandView {
        match self {
            Command::Menu => CommandView::Menu,
            Command::PlaceOrder { items } => CommandView::PlaceOrder(items@),
            Command::Pay { order_id, method } => CommandView::Pay(*order_id, *method),
            Command::Exit => CommandView::Exit,
        }
    }
}

/// Whether a character is a decimal digit.
pub open spec fn is_digit(c: char) -> bool {
    '0' as u32 <= c as u32 <= '9' as u32
}

/// The value of one decimal digit character.
pub open spec fn digit_val(c: char) -> int {
    c as u32 - '0' as u32
}

/// Whether every character of the sequence is a decimal digit.
pub open spec fn all_digits(s: Seq<char>) -> bool {
    forall|i: int| 0 <= i < s.len() ==> is_digit(s[i])
}

/// The number the digit sequence denotes, most significant digit first.
pub open spec fn digits_val(s: Seq<char>) -> int
    decreases s.len(),
{
    if s.len() == 0 {
        0
    } else {
        digits_val(s.drop_last()) * 10 + digit_val(s.last())
    }
}

/// The number an order-identifier token denotes: defined exactly for a
/// non-empty all-digit token whose value fits in a machine word.
pub open spec fn spec_parse_u64(s: Seq<char>) -> Option<u64> {
    if s.len() > 0 && all_digits(s) && digits_val(s) <= u64::MAX {
        Some(digits_val(s) as u64)
    } else {
        None
    }
}

/// A digit string denotes a non-negative number.
proof fn lemma_digits_val_nonneg(s: Seq<char>)
    requires
        all_digits(s),
    ensures
        digits_val(s) >= 0,
    decreases s.len(),
{
    if s.len() > 0 {
        assert(all_digits(s.drop_last()));
        lemma_digits_val_nonneg(s.drop_last());
    }
}

/// A prefix of a digit string never denotes more than the whole string.
proof fn lemma_digits_val_prefix_le(s: Seq<char>, j: int)
    requires
        all_digits(s),
        0 <= j <= s.len(),
    ensures
        digits_val(s.subrange(0, j)) <= digits_val(s),
    decreases s.len(),
{
    if j == s.len() {
        assert(s.subrange(0, j) =~= s);
    } else {
        let t = s.drop_last();
        assert(all_digits(t));
        assert(s.subrange(0, j) =~= t.subrange(0, j));
        lemma_digits_val_prefix_le(t, j);
        lemma_digits_val_nonneg(t);
    }
}

/// Parse a decimal order identifier.
pub fn parse_u64(s: &str) -> (r: Option<u64>)
    ensures
        r == spec_parse_u64(s@),
{
    let n = s.unicode_len();
    if n == 0 {
        return None;
    }
    let mut acc: u64 = 0;
    let mut i: usize = 0;
    while i < n
        invariant
            n == s@.len(),
            0 <= i <= n,
            all_digits(s@.subrange(0, i as int)),
            acc == digits_val(s@.subrange(0, i as int)),
        decreases n - i,
    {
        let c = s.get_char(i);
        let u = c as u32;
        if u < 48 || u > 57 {
            assert(!is_digit(s@[i as int]));
            return None;
        }
        let d = (u - 48) as u64;
        proof {
            assert(s@.subrange(0, i + 1).drop_last() =~= s@.subrange(0, i as int));
            assert(s@.subrange(0, i + 1).last() == s@[i as int]);
            lemma_digits_val_nonneg(s@.subrange(0, i as int));
        }
        if acc > (u64::MAX - d) / 10 {
            proof {
                assert(acc * 10 + d > u64::MAX) by (nonlinear_arith)
                    requires
                        acc > (u64::MAX - d) / 10,
                        0 <= d <= 9,
                        acc >= 0,
                ;
                if all_digits(s@) {
                    lemma_digits_val_prefix_le(s@, i + 1);
                }
            }
            return None;
        }
        proof {
            assert(acc * 10 + d <= u64::MAX) by (nonlinear_arith)
                requires
                    acc <= (u64::MAX - d) / 10,
                    0 <= d <= 9,
                    acc >= 0,
            ;
        }
        acc = acc * 10 + d;
        i = i + 1;
    }
    proof {
        assert(s@.subrange(0, n as int) =~= s@);
    }
    Some(acc)
}

/// Whether two strings hold the same characters.
fn str_eq(a: &str, b: &str) -> (r: bool)
    ensures
        r == (a@ == b@),
{
    let x = a.to_owned();
    let y = b.to_owned();
    x == y
}

/// The pizza a menu token names, if any.
pub open spec fn pizza_token_sel(t: Seq<char>) -> Option<PizzaSelection> {
    if t == "margherita"@ {
        Some(PizzaSelection::Margherita)
    } else if t == "farmhouse"@ {
        Some(PizzaSelection::Farmhouse)
    } else if t == "thin_margherita"@ {
        Some(PizzaSelection::ThinMargherita)
    } else if t == "cheese_burst_farmhouse"@ {
        Some(PizzaSelection::CheeseBurstFarmhouse)
    } else {
        None
    }
}

/// The pizzas a token sequence names, in order; any unrecognized token
/// invalidates the whole sequence.
pub open spec fn sels_of(toks: Seq<Seq<char>>) -> Option<Seq<PizzaSelection>>
    decreases toks.len(),
{
    if toks.len() == 0 {
        Some(Seq::empty())
    } else {
        match sels_of(toks.drop_last()) {
            Some(s) => match pizza_token_sel(toks.last()) {
                Some(p) => Some(s.push(p)),
                None => None,
            },
            None => None,
        }
    }
}

/// One bad token invalidates the whole sequence.
proof fn lemma_sels_of_invalid(toks: Seq<Seq<char>>, k: int)
    requires
        0 <= k < toks.len(),
        pizza_token_sel(toks[k]) is None,
    ensures
        sels_of(toks) is None,
    decreases toks.len(),
{
    if k < toks.len() - 1 {
        lemma_sels_of_invalid(toks.drop_last(), k);
    }
}

/// The payment method a token names, if any.
pub open spec fn method_token(t: Seq<char>) -> Option<PaymentMethodCommand> {
    if t == "upi"@ {
        Some(PaymentMethodCommand::UPI)
    } else if t == "card"@ {
        Some(PaymentMethodCommand::Card)
    } else {
        None
    }
}

/// The command a token sequence denotes, if any: `menu`, `exit`,
/// `order` followed by pizza names, or `pay` followed by an order
/// identifier and a method name. Tokens beyond those read are ignored.
pub open spec fn spec_parse_command(toks: Seq<Seq<char>>) -> Option<CommandView> {
    if toks.len() == 0 {
        None
    } else if toks[0] == "menu"@ {
        Some(CommandView::Menu)
    } else if toks[0] == "exit"@ {
        Some(CommandView::Exit)
    } else if toks[0] == "order"@ {
        match sels_of(toks.subrange(1, toks.len() as int)) {
            Some(s) => Some(CommandView::PlaceOrder(s)),
            None => None,
        }
    } else if toks[0] == "pay"@ {
        if toks.len() < 3 {
            None
        } else {
            match spec_parse_u64(toks[1]) {
                Some(n) => match method_token(toks[2]) {
                    Some(m) => Some(CommandView::Pay(n, m)),
                    None => None,
                },
                None => None,
            }
        }
    } else {
        None
    }
}

/// Read the pizza names after the `order` keyword, `None` on any
/// unrecognized token.
fn parse_selections(tokens: &Vec<String>) -> (r: Option<Vec<PizzaSelection>>)
    requires
        tokens@.len() >= 1,
    ensures
        r is Some <==> sels_of(
            tokens.deep_view().subrange(1, tokens.deep_view().len() as int),
        ) is Some,
        r matches Some(v) ==> sels_of(
            tokens.deep_view().subrange(1, tokens.deep_view().len() as int),
        ) == Some(v@),
{
    let ghost dv = tokens.deep_view();
    let ghost rest = dv.subrange(1, dv.len() as int);
    let n = tokens.len();
    let mut items: Vec<PizzaSelection> = Vec::new();
    let mut i: usize = 1;
    while i < n
        invariant
            dv == tokens.deep_view(),
            rest == dv.subrange(1, dv.len() as int),
            n == tokens@.len(),
            dv.len() == n,
            1 <= i <= n,
            sels_of(rest.subrange(0, i - 1)) == Some(items@),
        decreases n - i,
    {
        proof {
            assert(rest.subrange(0, i as int).drop_last() =~= rest.subrange(0, i - 1));
            assert(rest.subrange(0, i as int).last() == dv[i as int]);
        }
        let t = &tokens[i];
        let p = if str_eq(t.as_str(), "margherita") {
            PizzaSelection::Margherita
        } else if str_eq(t.as_str(), "farmhouse") {
            PizzaSelection::Farmhouse
        } else if str_eq(t.as_str(), "thin_margherita") {
            PizzaSelection::ThinMargherita
        } else if str_eq(t.as_str(), "cheese_burst_farmhouse") {
            PizzaSelection::CheeseBurstFarmhouse
        } else {
            proof {
                lemma_sels_of_invalid(rest, i - 1);
            }
            return None;
        };
        items.push(p);
        i = i + 1;
    }
    proof {
        assert(rest.subrange(0, n - 1) =~= rest);
    }
    Some(items)
}

impl Command {
    /// Parse user input tokens into a command, `None` on invalid input.
    pub fn parse(tokens: &Vec<String>) -> (r: Option<Command>)
        ensures
            r is Some <==> spec_parse_command(tokens.deep_view()) is Some,
            r matches Some(c) ==> spec_parse_command(tokens.deep_view()) == Some(c@),
    {
        let ghost dv = tokens.deep_view();
        if tokens.len() == 0 {
            return None;
        }
        let head = &tokens[0];
        if str_eq(head.as_str(), "menu") {
            Some(Command::Menu)
        } else if str_eq(head.as_str(), "exit") {
            Some(Command::Exit)
        } else if str_eq(head.as_str(), "order") {
            match parse_selections(tokens) {
                Some(items) => Some(Command::PlaceOrder { items }),
                None => None,
            }
        } else if str_eq(head.as_str(), "pay") {
            if tokens.len() < 3 {
                return None;
            }
            let order_id = match parse_u64(tokens[1].as_str()) {
                Some(n) => n,
                None => {
                    return None;
                },
            };
            let method = if str_eq(tokens[2].as_str(), "upi") {
                PaymentMethodCommand::UPI
            } else if str_eq(tokens[2].as_str(), "card") {
                PaymentMethodCommand::Card
            } else {
                return None;
            };
            Some(Command::Pay { order_id, method })
        } else {
            None
        }
    }
}

/// The pizza a menu selection builds.
pub open spec fn pizza_of_selection(s: PizzaSelection) -> Pizza {
    match s {
        PizzaSelection::Margherita => Pizza::Margherita { price: MARGHERITA_PRICE },
        PizzaSelection::Farmhouse => Pizza::Farmhouse { price: FARMHOUSE_PRICE },
        PizzaSelection::ThinMargherita => Pizza::ThinCrust {
            inner: Box::new(Pizza::Margherita { price: MARGHERITA_PRICE }),
        },
        PizzaSelection::CheeseBurstFarmhouse => Pizza::CheeseBurst {
            inner: Box::new(Pizza::Farmhouse { price: FARMHOUSE_PRICE }),
        },
    }
}

/// Build the pizzas a selection list names, in order.
pub fn build_pizzas(items: &Vec<PizzaSelection>) -> (r: Vec<Pizza>)
    ensures
        r@.len() == items@.len(),
        forall|i: int| 0 <= i < items@.len() ==> r@[i] == pizza_of_selection(items@[i]),
{
    let n = items.len();
    let mut r: Vec<Pizza> = Vec::new();
    let mut i: usize = 0;
    while i < n
        invariant
            n == items@.len(),
            0 <= i <= n,
            r@.len() == i,
            forall|k: int| 0 <= k < i ==> r@[k] == pizza_of_selection(items@[k]),
        decreases n - i,
    {
        let p = match &items[i] {
            PizzaSelection::Margherita => Pizza::margherita(),
            PizzaSelection::Farmhouse => Pizza::farmhouse(),
            PizzaSelection::ThinMargherita => Pizza::thin_crust(Pizza::margherita()),
            PizzaSelection::CheeseBurstFarmhouse => Pizza::cheese_burst(Pizza::farmhouse()),
        };
        r.push(p);
        i = i + 1;
    }
    r
}

/// Place an order: build the selected pizzas, create an order under a
/// fresh identifier, and store it. The new identifier comes back; an
/// empty selection is permitted and yields an order of total cost 0.
pub fn place_order(
    state: &mut SharedOrderState,
    gen: &mut IdGenerator,
    items: Vec<PizzaSelection>,
) -> (r: Result<u64, OrderError>)
    requires
        old(state).wf(),
        old(gen).spec_counter() < u64::MAX,
    ensures
        final(state).wf(),
        final(gen).spec_counter() == old(gen).spec_counter() + 1,
        r is Ok,
        r->Ok_0 == old(gen).spec_counter(),
        final(state).spec_get(old(gen).spec_counter()) matches Some(o) && o@.status
            == OrderStatus::Created && o@.items.len() == items@.len() && (forall|i: int|
            0 <= i < items@.len() ==> o@.items[i] == pizza_of_selection(items@[i])),
        forall|id: u64|
            id != old(gen).spec_counter() ==> final(state).spec_get(id) == old(state).spec_get(id),
{
    let pizzas = build_pizzas(&items);
    let o = order::new(gen, pizzas);
    let id = o.id.0;
    state.add_order(o);
    Ok(id)
}

/// Pay for a stored order via the chosen method. The wallet method is
/// configured to always succeed; the card method uses a valid
/// verification code, so either attempt settles and the receipt carries
/// the stored order's identifier and total. The paid status is marked
/// on a local copy only; the stored entry is unchanged.
pub fn pay_order(
    state: &SharedOrderState,
    order_id: u64,
    method: PaymentMethodCommand,
) -> (r: Result<PaymentReceipt, BillingError>)
    requires
        state.wf(),
        state.spec_get(order_id) is Some,
        total_of(state.spec_get(order_id)->Some_0@) <= u64::MAX,
    ensures
        r is Ok,
        r matches Ok(rec) ==> rec.order_id == order_id && rec.total_amount == total_of(
            state.spec_get(order_id)->Some_0@,
        ),
{
    let mut o = match state.get_order(order_id) {
        Some(o) => o,
        None => {
            proof {
                assert(false);
            }
            return Err(BillingError::InvalidPaymentMethod);
        },
    };
    let receipt = match method {
        PaymentMethodCommand::UPI => {
            let upi = UpiPayment::with_success_rate("tester@upi", PPM_SCALE);
            match upi.pay(&o) {
                Ok(rec) => rec,
                Err(e) => {
                    return Err(e);
                },
            }
        },
        PaymentMethodCommand::Card => {
            let card = CardPayment::new("4111222233334444", 123);
            match card.pay(&o) {
                Ok(rec) => rec,
                Err(e) => {
                    return Err(e);
                },
            }
        },
    };
    o.mark_paid();
    Ok(receipt)
}

} // verus!
