//! Orders: an identifier, a priced item list, a lifecycle status and a
//! creation timestamp.

use vstd::prelude::*;
use vstd::string::StringExecFns;

use crate::clock::now_millis;
use crate::idgen::{dec_digits, u64_to_dec_string, IdGenerator};
use crate::pizza::{cost_of, desc_of, Pizza};

verus! {

/// Unique order identifier.
#[derive(Clone, Copy, Debug, PartialEq, Eq, Hash, Structural)]
pub struct OrderId(pub u64);

/// Order lifecycle status, forward-only: Created, then Paid, then
/// Completed. Transitions are not validated against the current state.
#[derive(Clone, Copy, Debug, PartialEq, Eq, Structural)]
pub enum OrderStatus {
    Created,
    Paid,
    Completed,
}

/// A customer's order.
#[allow(non_camel_case_types)]
pub struct order {
    pub id: OrderId,
    pub pizzas: Vec<Pizza>,
    pub status: OrderStatus,
    pub timestamp: u64,
}

/// The mathematical content of an order.
pub struct OrderModel {
    pub id: u64,
    pub items: Seq<Pizza>,
    pub status: OrderStatus,
    pub timestamp: u64,
}

impl View for order {
    type V = OrderModel;

    open spec fn view(&self) -> OrderModel {
        OrderModel {
            id: self.id.0,
            items: self.pizzas@,
            status: self.status,
            timestamp: self.timestamp,
        }
    }
}

/// Sum of the costs of a sequence of priced items.
pub open spec fn sum_costs(s: Seq<Pizza>) -> int
    decreases s.len(),
{
    if s.len() == 0 {
        0
    } else {
        sum_costs(s.drop_last()) + cost_of(s.last())
    }
}

/// The total cost of an order: the sum of its items' costs, 0 for an
/// empty order.
pub open spec fn total_of(m: OrderModel) -> int {
    sum_costs(m.items)
}

/// A pizza's cost is never negative.
pub proof fn lemma_cost_nonneg(p: Pizza)
    ensures
        cost_of(p) >= 0,
    decreases p,
{
    match p {
        Pizza::Margherita { price } => {},
        Pizza::Farmhouse { price } => {},
        Pizza::ThinCrust { inner } => lemma_cost_nonneg(*inner),
        Pizza::CheeseBurst { inner } => lemma_cost_nonneg(*inner),
        Pizza::Cheese { inner, price } => lemma_cost_nonneg(*inner),
        Pizza::Olives { inner, price } => lemma_cost_nonneg(*inner),
        Pizza::Jalapenos { inner, price } => lemma_cost_nonneg(*inner),
    }
}

/// A sum of costs is never negative.
pub proof fn lemma_sum_costs_nonneg(s: Seq<Pizza>)
    ensures
        sum_costs(s) >= 0,
    decreases s.len(),
{
    if s.len() > 0 {
        lemma_sum_costs_nonneg(s.drop_last());
        lemma_cost_nonneg(s.last());
    }
}

/// A sum of costs splits at any point.
pub proof fn lemma_sum_costs_split(s: Seq<Pizza>, i: int)
    requires
        0 <= i <= s.len(),
    ensures
        sum_costs(s) == sum_costs(s.subrange(0, i)) + sum_costs(s.subrange(i, s.len() as int)),
    decreases s.len(),
{
    if i == s.len() {
        assert(s.subrange(0, i) =~= s);
        assert(s.subrange(i, s.len() as int) =~= Seq::<Pizza>::empty());
    } else {
        let t = s.drop_last();
        lemma_sum_costs_split(t, i);
        assert(s.subrange(0, i) =~= t.subrange(0, i));
        assert(s.subrange(i, s.len() as int).drop_last() =~= t.subrange(i, t.len() as int));
        assert(s.subrange(i, s.len() as int).last() == s.last());
    }
}

impl order {
    /// Create a new order: it takes the generator's next identifier, the
    /// given items in their order, status Created, and the current time.
    pub fn new(gen: &mut IdGenerator, pizzas: Vec<Pizza>) -> (r: order)
        requires
            old(gen).spec_counter() < u64::MAX,
        ensures
            r@.id == old(gen).spec_counter(),
            r@.items == pizzas@,
            r@.status == OrderStatus::Created,
            final(gen).spec_counter() == old(gen).spec_counter() + 1,
            final(gen).spec_prefix() == old(gen).spec_prefix(),
    {
        order {
            id: OrderId(gen.next_value()),
            pizzas,
            status: OrderStatus::Created,
            timestamp: now_millis(),
        }
    }

    /// Total cost of the order, when it fits in a machine word.
    pub fn total_cost(&self) -> (r: u64)
        requires
            total_of(self@) <= u64::MAX,
        ensures
            r == total_of(self@),
    {
        let ghost s = self.pizzas@;
        let mut acc: u64 = 0;
        let mut i: usize = 0;
        let n = self.pizzas.len();
        while i < n
            invariant
                s == self.pizzas@,
                n == s.len(),
                0 <= i <= n,
                sum_costs(s) <= u64::MAX,
                acc == sum_costs(s.subrange(0, i as int)),
            decreases n - i,
        {
            proof {
                lemma_sum_costs_split(s, i + 1);
                lemma_sum_costs_nonneg(s.subrange(i + 1, s.len() as int));
                assert(s.subrange(0, i + 1).drop_last() =~= s.subrange(0, i as int));
                assert(s.subrange(0, i + 1).last() == s[i as int]);
                lemma_cost_nonneg(s[i as int]);
                lemma_sum_costs_nonneg(s.subrange(0, i as int));
            }
            let c = self.pizzas[i].cost();
            acc = acc + c;
            i = i + 1;
        }
        proof {
            assert(s.subrange(0, n as int) =~= s);
        }
        acc
    }

    /// Total cost of the order; `None` exactly when the sum does not fit
    /// in a machine word.
    pub fn total_checked(&self) -> (r: Option<u64>)
        ensures
            r is Some <==> total_of(self@) <= u64::MAX,
            r is Some ==> r->Some_0 == total_of(self@),
    {
        let ghost s = self.pizzas@;
        let mut acc: u64 = 0;
        let mut i: usize = 0;
        let n = self.pizzas.len();
        while i < n
            invariant
                s == self.pizzas@,
                n == s.len(),
                0 <= i <= n,
                acc == sum_costs(s.subrange(0, i as int)),
            decreases n - i,
        {
            proof {
                lemma_sum_costs_split(s, i + 1);
                lemma_sum_costs_nonneg(s.subrange(i + 1, s.len() as int));
                assert(s.subrange(0, i + 1).drop_last() =~= s.subrange(0, i as int));
                assert(s.subrange(0, i + 1).last() == s[i as int]);
                lemma_cost_nonneg(s[i as int]);
                lemma_sum_costs_nonneg(s.subrange(0, i as int));
            }
            let c = match self.pizzas[i].cost_checked() {
                Some(c) => c,
                None => {
                    return None;
                },
            };
            if acc > u64::MAX - c {
                return None;
            }
            acc = acc + c;
            i = i + 1;
        }
        proof {
            assert(s.subrange(0, n as int) =~= s);
        }
        Some(acc)
    }

    /// Mark the order as paid. The transition is not validated against
    /// the current status.
    pub fn mark_paid(&mut self)
        ensures
            final(self)@.status == OrderStatus::Paid,
            final(self)@.id == old(self)@.id,
            final(self)@.items == old(self)@.items,
            final(self)@.timestamp == old(self)@.timestamp,
    {
        self.status = OrderStatus::Paid;
    }

    /// Mark the order as completed. The transition is not validated
    /// against the current status.
    pub fn mark_completed(&mut self)
        ensures
            final(self)@.status == OrderStatus::Completed,
            final(self)@.id == old(self)@.id,
            final(self)@.items == old(self)@.items,
            final(self)@.timestamp == old(self)@.timestamp,
    {
        self.status = OrderStatus::Completed;
    }
}

/// The display name of a status.
pub open spec fn status_text(s: OrderStatus) -> Seq<char> {
    match s {
        OrderStatus::Created => "Created"@,
        OrderStatus::Paid => "Paid"@,
        OrderStatus::Completed => "Completed"@,
    }
}

/// One item on a displayed order: its description and its cost.
pub open spec fn item_text(p: Pizza) -> Seq<char> {
    desc_of(p) + " ("@ + dec_digits(cost_of(p) as nat) + ")"@
}

/// The displayed item list, comma separated, in order.
pub open spec fn items_text(s: Seq<Pizza>) -> Seq<char>
    decreases s.len(),
{
    if s.len() == 0 {
        Seq::empty()
    } else if s.len() == 1 {
        item_text(s.last())
    } else {
        items_text(s.drop_last()) + ", "@ + item_text(s.last())
    }
}

/// The display form of an order: its identifier, its items with their
/// costs, its total, and its status.
pub open spec fn rendered_order(m: OrderModel) -> Seq<char> {
    "Order #"@ + dec_digits(m.id as nat) + "\nPizzas: "@ + items_text(m.items) + "\nTotal: "@
        + dec_digits(total_of(m) as nat) + "\nStatus: "@ + status_text(m.status)
}

impl order {
    /// Render the order for display.
    pub fn render(&self) -> (r: String)
        requires
            total_of(self@) <= u64::MAX,
        ensures
            r@ == rendered_order(self@),
    {
        let mut s = String::from_str("Order #");
        let id_digits = u64_to_dec_string(self.id.0);
        s.append(id_digits.as_str());
        s.append("\nPizzas: ");
        let ghost header = "Order #"@ + dec_digits(self.id.0 as nat) + "\nPizzas: "@;
        assert(s@ == header);
        let ghost items = self.pizzas@;
        let n = self.pizzas.len();
        let mut i: usize = 0;
        while i < n
            invariant
                items == self.pizzas@,
                n == items.len(),
                0 <= i <= n,
                sum_costs(items) <= u64::MAX,
                s@ == header + items_text(items.subrange(0, i as int)),
            decreases n - i,
        {
            proof {
                lemma_sum_costs_split(items, i + 1);
                lemma_sum_costs_nonneg(items.subrange(i + 1, items.len() as int));
                lemma_sum_costs_nonneg(items.subrange(0, i as int));
                assert(items.subrange(0, i + 1).drop_last() =~= items.subrange(0, i as int));
                assert(items.subrange(0, i + 1).last() == items[i as int]);
                lemma_cost_nonneg(items[i as int]);
            }
            if i > 0 {
                s.append(", ");
            }
            let p = &self.pizzas[i];
            let desc = p.description();
            s.append(desc.as_str());
            s.append(" (");
            let c = p.cost();
            let c_digits = u64_to_dec_string(c);
            s.append(c_digits.as_str());
            s.append(")");
            proof {
                if i == 0 {
                    assert(items.subrange(0, 1).last() == items[0]);
                    assert(s@ =~= header + items_text(items.subrange(0, i + 1)));
                } else {
                    assert(s@ =~= header + items_text(items.subrange(0, i + 1)));
                }
            }
            i = i + 1;
        }
        proof {
            assert(items.subrange(0, n as int) =~= items);
        }
        s.append("\nTotal: ");
        let t = self.total_cost();
        let t_digits = u64_to_dec_string(t);
        s.append(t_digits.as_str());
        s.append("\nStatus: ");
        match self.status {
            OrderStatus::Created => s.append("Created"),
            OrderStatus::Paid => s.append("Paid"),
            OrderStatus::Completed => s.append("Completed"),
        }
        proof {
            assert(s@ =~= rendered_order(self@));
        }
        s
    }
}

impl Clone for order {
    /// An independent copy with the same content.
    fn clone(&self) -> (r: Self)
        ensures
            r@ == self@,
    {
        order {
            id: self.id,
            pizzas: self.pizzas.clone(),
            status: self.status,
            timestamp: self.timestamp,
        }
    }
}

/// One creation step: `o` was created while the generator moved from
/// `g0` to `g1`, as `order::new` ensures.
pub open spec fn created_from(g0: IdGenerator, g1: IdGenerator, o: order) -> bool {
    &&& o@.id == g0.spec_counter()
    &&& g1.spec_counter() == g0.spec_counter() + 1
}

/// Every created order receives a strictly greater identifier than all
/// orders created before it from the same generator: `o1` is created
/// first, the generator's counter then never goes down (it is not
/// reset), and `o2` is created later.
pub proof fn lemma_order_ids_strictly_increase(
    g0: IdGenerator,
    g1: IdGenerator,
    g2: IdGenerator,
    g3: IdGenerator,
    o1: order,
    o2: order,
)
    requires
        created_from(g0, g1, o1),
        g2.spec_counter() >= g1.spec_counter(),
        created_from(g2, g3, o2),
    ensures
        o2@.id > o1@.id,
{
}

} // verus!
