//! Pizza catalog and decorator chain.
//!
//! A pizza is either a base variant with a fixed price, or a decorator
//! (a crust style or a topping) wrapping exactly one inner pizza and
//! adding a fixed surcharge to the cost and a fixed suffix to the
//! description.

use vstd::prelude::*;
use vstd::string::StringExecFns;

verus! {

/// Default price of a Margherita base.
pub const MARGHERITA_PRICE: u64 = 120;

/// Default price of a Farmhouse base.
pub const FARMHOUSE_PRICE: u64 = 150;

/// Surcharge of the thin-crust style.
pub const THIN_CRUST_SURCHARGE: u64 = 20;

/// Surcharge of the cheese-burst crust style.
pub const CHEESE_BURST_SURCHARGE: u64 = 50;

/// Default surcharge of the cheese topping.
pub const CHEESE_PRICE: u64 = 10;

/// Default surcharge of the olives topping.
pub const OLIVES_PRICE: u64 = 15;

/// Default surcharge of the jalapenos topping.
pub const JALAPENOS_PRICE: u64 = 12;

/// A priced item: a base pizza or a decorator around one inner item.
pub enum Pizza {
    Margherita { price: u64 },
    Farmhouse { price: u64 },
    ThinCrust { inner: Box<Pizza> },
    CheeseBurst { inner: Box<Pizza> },
    Cheese { inner: Box<Pizza>, price: u64 },
    Olives { inner: Box<Pizza>, price: u64 },
    Jalapenos { inner: Box<Pizza>, price: u64 },
}

/// Mathematical cost of a pizza: the base price plus every surcharge on
/// the chain.
pub open spec fn cost_of(p: Pizza) -> int
    decreases p,
{
    match p {
        Pizza::Margherita { price } => price as int,
        Pizza::Farmhouse { price } => price as int,
        Pizza::ThinCrust { inner } => cost_of(*inner) + THIN_CRUST_SURCHARGE,
        Pizza::CheeseBurst { inner } => cost_of(*inner) + CHEESE_BURST_SURCHARGE,
        Pizza::Cheese { inner, price } => cost_of(*inner) + price,
        Pizza::Olives { inner, price } => cost_of(*inner) + price,
        Pizza::Jalapenos { inner, price } => cost_of(*inner) + price,
    }
}

/// Description of a pizza: the base name, then one suffix per decorator,
/// innermost first, in the order the decorators were applied.
pub open spec fn desc_of(p: Pizza) -> Seq<char>
    decreases p,
{
    match p {
        Pizza::Margherita { price } => "Margherita"@,
        Pizza::Farmhouse { price } => "Farmhouse"@,
        Pizza::ThinCrust { inner } => desc_of(*inner) + ", Thin Crust"@,
        Pizza::CheeseBurst { inner } => desc_of(*inner) + ", CheeseBurst Crust"@,
        Pizza::Cheese { inner, price } => desc_of(*inner) + " + Cheese"@,
        Pizza::Olives { inner, price } => desc_of(*inner) + " + Olives"@,
        Pizza::Jalapenos { inner, price } => desc_of(*inner) + " + Jalapenos"@,
    }
}

impl Clone for Pizza {
    /// An independent copy of the whole chain.
    fn clone(&self) -> (r: Self)
        ensures
            r == *self,
        decreases *self,
    {
        match self {
            Pizza::Margherita { price } => Pizza::Margherita { price: *price },
            Pizza::Farmhouse { price } => Pizza::Farmhouse { price: *price },
            Pizza::ThinCrust { inner } => Pizza::ThinCrust {
                inner: Box::new((**inner).clone()),
            },
            Pizza::CheeseBurst { inner } => Pizza::CheeseBurst {
                inner: Box::new((**inner).clone()),
            },
            Pizza::Cheese { inner, price } => Pizza::Cheese {
                inner: Box::new((**inner).clone()),
                price: *price,
            },
            Pizza::Olives { inner, price } => Pizza::Olives {
                inner: Box::new((**inner).clone()),
                price: *price,
            },
            Pizza::Jalapenos { inner, price } => Pizza::Jalapenos {
                inner: Box::new((**inner).clone()),
                price: *price,
            },
        }
    }
}

impl Pizza {
    /// A Margherita at the default price.
    pub fn margherita() -> (r: Pizza)
        ensures
            r == (Pizza::Margherita { price: MARGHERITA_PRICE }),
    {
        Pizza::Margherita { price: MARGHERITA_PRICE }
    }

    /// A Margherita at a chosen price.
    pub fn margherita_with_price(price: u64) -> (r: Pizza)
        ensures
            r == (Pizza::Margherita { price }),
    {
        Pizza::Margherita { price }
    }

    /// A Farmhouse at the default price.
    pub fn farmhouse() -> (r: Pizza)
        ensures
            r == (Pizza::Farmhouse { price: FARMHOUSE_PRICE }),
    {
        Pizza::Farmhouse { price: FARMHOUSE_PRICE }
    }

    /// A Farmhouse at a chosen price.
    pub fn farmhouse_with_price(price: u64) -> (r: Pizza)
        ensures
            r == (Pizza::Farmhouse { price }),
    {
        Pizza::Farmhouse { price }
    }

    /// Wrap a pizza in a thin crust.
    pub fn thin_crust(inner: Pizza) -> (r: Pizza)
        ensures
            r == (Pizza::ThinCrust { inner: Box::new(inner) }),
    {
        Pizza::ThinCrust { inner: Box::new(inner) }
    }

    /// Wrap a pizza in a cheese-burst crust.
    pub fn cheese_burst(inner: Pizza) -> (r: Pizza)
        ensures
            r == (Pizza::CheeseBurst { inner: Box::new(inner) }),
    {
        Pizza::CheeseBurst { inner: Box::new(inner) }
    }

    /// Add a cheese topping at the default surcharge.
    pub fn cheese(inner: Pizza) -> (r: Pizza)
        ensures
            r == (Pizza::Cheese { inner: Box::new(inner), price: CHEESE_PRICE }),
    {
        Pizza::Cheese { inner: Box::new(inner), price: CHEESE_PRICE }
    }

    /// Add a cheese topping at a chosen surcharge.
    pub fn cheese_with_price(inner: Pizza, price: u64) -> (r: Pizza)
        ensures
            r == (Pizza::Cheese { inner: Box::new(inner), price }),
    {
        Pizza::Cheese { inner: Box::new(inner), price }
    }

    /// Add an olives topping at the default surcharge.
    pub fn olives(inner: Pizza) -> (r: Pizza)
        ensures
            r == (Pizza::Olives { inner: Box::new(inner), price: OLIVES_PRICE }),
    {
        Pizza::Olives { inner: Box::new(inner), price: OLIVES_PRICE }
    }

    /// Add an olives topping at a chosen surcharge.
    pub fn olives_with_price(inner: Pizza, price: u64) -> (r: Pizza)
        ensures
            r == (Pizza::Olives { inner: Box::new(inner), price }),
    {
        Pizza::Olives { inner: Box::new(inner), price }
    }

    /// Add a jalapenos topping at the default surcharge.
    pub fn jalapenos(inner: Pizza) -> (r: Pizza)
        ensures
            r == (Pizza::Jalapenos { inner: Box::new(inner), price: JALAPENOS_PRICE }),
    {
        Pizza::Jalapenos { inner: Box::new(inner), price: JALAPENOS_PRICE }
    }

    /// Add a jalapenos topping at a chosen surcharge.
    pub fn jalapenos_with_price(inner: Pizza, price: u64) -> (r: Pizza)
        ensures
            r == (Pizza::Jalapenos { inner: Box::new(inner), price }),
    {
        Pizza::Jalapenos { inner: Box::new(inner), price }
    }

    /// The described chain: base name first, decorator suffixes in the
    /// order they were applied.
    pub fn description(&self) -> (r: String)
        ensures
            r@ == desc_of(*self),
        decreases *self,
    {
        match self {
            Pizza::Margherita { price } => "Margherita".to_owned(),
            Pizza::Farmhouse { price } => "Farmhouse".to_owned(),
            Pizza::ThinCrust { inner } => {
                let mut s = inner.description();
                s.append(", Thin Crust");
                s
            },
            Pizza::CheeseBurst { inner } => {
                let mut s = inner.description();
                s.append(", CheeseBurst Crust");
                s
            },
            Pizza::Cheese { inner, price } => {
                let mut s = inner.description();
                s.append(" + Cheese");
                s
            },
            Pizza::Olives { inner, price } => {
                let mut s = inner.description();
                s.append(" + Olives");
                s
            },
            Pizza::Jalapenos { inner, price } => {
                let mut s = inner.description();
                s.append(" + Jalapenos");
                s
            },
        }
    }

    /// Total cost of the chain, when it fits in a machine word.
    pub fn cost(&self) -> (r: u64)
        requires
            cost_of(*self) <= u64::MAX,
        ensures
            r == cost_of(*self),
        decreases *self,
    {
        match self {
            Pizza::Margherita { price } => *price,
            Pizza::Farmhouse { price } => *price,
            Pizza::ThinCrust { inner } => inner.cost() + THIN_CRUST_SURCHARGE,
            Pizza::CheeseBurst { inner } => inner.cost() + CHEESE_BURST_SURCHARGE,
            Pizza::Cheese { inner, price } => inner.cost() + *price,
            Pizza::Olives { inner, price } => inner.cost() + *price,
            Pizza::Jalapenos { inner, price } => inner.cost() + *price,
        }
    }

    /// Total cost of the chain; `None` exactly when the sum does not fit
    /// in a machine word.
    pub fn cost_checked(&self) -> (r: Option<u64>)
        ensures
            r is Some <==> cost_of(*self) <= u64::MAX,
            r is Some ==> r->Some_0 == cost_of(*self),
        decreases *self,
    {
        match self {
            Pizza::Margherita { price } => Some(*price),
            Pizza::Farmhouse { price } => Some(*price),
            Pizza::ThinCrust { inner } => add_surcharge(inner.cost_checked(), THIN_CRUST_SURCHARGE),
            Pizza::CheeseBurst { inner } => add_surcharge(
                inner.cost_checked(),
                CHEESE_BURST_SURCHARGE,
            ),
            Pizza::Cheese { inner, price } => add_surcharge(inner.cost_checked(), *price),
            Pizza::Olives { inner, price } => add_surcharge(inner.cost_checked(), *price),
            Pizza::Jalapenos { inner, price } => add_surcharge(inner.cost_checked(), *price),
        }
    }
}

/// One decorator layer of a chain: a crust style or a topping, with its
/// surcharge.
pub enum Wrapper {
    ThinCrust,
    CheeseBurst,
    Cheese { price: u64 },
    Olives { price: u64 },
    Jalapenos { price: u64 },
}

/// The surcharge a decorator layer adds to the cost.
pub open spec fn surcharge_of(w: Wrapper) -> int {
    match w {
        Wrapper::ThinCrust => THIN_CRUST_SURCHARGE as int,
        Wrapper::CheeseBurst => CHEESE_BURST_SURCHARGE as int,
        Wrapper::Cheese { price } => price as int,
        Wrapper::Olives { price } => price as int,
        Wrapper::Jalapenos { price } => price as int,
    }
}

/// The suffix a decorator layer appends to the description.
pub open spec fn suffix_of(w: Wrapper) -> Seq<char> {
    match w {
        Wrapper::ThinCrust => ", Thin Crust"@,
        Wrapper::CheeseBurst => ", CheeseBurst Crust"@,
        Wrapper::Cheese { price } => " + Cheese"@,
        Wrapper::Olives { price } => " + Olives"@,
        Wrapper::Jalapenos { price } => " + Jalapenos"@,
    }
}

/// The decorator layers around the base of a chain, innermost first.
pub open spec fn wrappers_of(p: Pizza) -> Seq<Wrapper>
    decreases p,
{
    match p {
        Pizza::Margherita { price } => Seq::empty(),
        Pizza::Farmhouse { price } => Seq::empty(),
        Pizza::ThinCrust { inner } => wrappers_of(*inner).push(Wrapper::ThinCrust),
        Pizza::CheeseBurst { inner } => wrappers_of(*inner).push(Wrapper::CheeseBurst),
        Pizza::Cheese { inner, price } => wrappers_of(*inner).push(Wrapper::Cheese { price }),
        Pizza::Olives { inner, price } => wrappers_of(*inner).push(Wrapper::Olives { price }),
        Pizza::Jalapenos { inner, price } => wrappers_of(*inner).push(
            Wrapper::Jalapenos { price },
        ),
    }
}

/// The base pizza at the bottom of a chain.
pub open spec fn base_of(p: Pizza) -> Pizza
    decreases p,
{
    match p {
        Pizza::Margherita { price } => p,
        Pizza::Farmhouse { price } => p,
        Pizza::ThinCrust { inner } => base_of(*inner),
        Pizza::CheeseBurst { inner } => base_of(*inner),
        Pizza::Cheese { inner, price } => base_of(*inner),
        Pizza::Olives { inner, price } => base_of(*inner),
        Pizza::Jalapenos { inner, price } => base_of(*inner),
    }
}

/// Sum of the surcharges of a sequence of decorator layers.
pub open spec fn sum_surcharges(ws: Seq<Wrapper>) -> int
    decreases ws.len(),
{
    if ws.len() == 0 {
        0
    } else {
        sum_surcharges(ws.drop_last()) + surcharge_of(ws.last())
    }
}

/// Concatenation of the suffixes of a sequence of decorator layers, in
/// order.
pub open spec fn suffixes_of(ws: Seq<Wrapper>) -> Seq<char>
    decreases ws.len(),
{
    if ws.len() == 0 {
        Seq::empty()
    } else {
        suffixes_of(ws.drop_last()) + suffix_of(ws.last())
    }
}

/// For any composition of decorators around a base pizza, the total cost
/// equals the base price plus the sum of each decorator's fixed
/// surcharge.
pub proof fn lemma_cost_is_base_plus_surcharges(p: Pizza)
    ensures
        cost_of(p) == cost_of(base_of(p)) + sum_surcharges(wrappers_of(p)),
    decreases p,
{
    match p {
        Pizza::Margherita { price } => {},
        Pizza::Farmhouse { price } => {},
        Pizza::ThinCrust { inner } => {
            lemma_cost_is_base_plus_surcharges(*inner);
            assert(wrappers_of(p).drop_last() =~= wrappers_of(*inner));
        },
        Pizza::CheeseBurst { inner } => {
            lemma_cost_is_base_plus_surcharges(*inner);
            assert(wrappers_of(p).drop_last() =~= wrappers_of(*inner));
        },
        Pizza::Cheese { inner, price } => {
            lemma_cost_is_base_plus_surcharges(*inner);
            assert(wrappers_of(p).drop_last() =~= wrappers_of(*inner));
        },
        Pizza::Olives { inner, price } => {
            lemma_cost_is_base_plus_surcharges(*inner);
            assert(wrappers_of(p).drop_last() =~= wrappers_of(*inner));
        },
        Pizza::Jalapenos { inner, price } => {
            lemma_cost_is_base_plus_surcharges(*inner);
            assert(wrappers_of(p).drop_last() =~= wrappers_of(*inner));
        },
    }
}

/// The description of any chain is the base's description followed by
/// each decorator's suffix: the innermost decorator's suffix first, the
/// outermost last, exactly in the order the decorators were applied.
pub proof fn lemma_description_follows_wrap_order(p: Pizza)
    ensures
        desc_of(p) == desc_of(base_of(p)) + suffixes_of(wrappers_of(p)),
    decreases p,
{
    match p {
        Pizza::Margherita { price } => {
            assert(desc_of(p) =~= desc_of(base_of(p)) + suffixes_of(wrappers_of(p)));
        },
        Pizza::Farmhouse { price } => {
            assert(desc_of(p) =~= desc_of(base_of(p)) + suffixes_of(wrappers_of(p)));
        },
        Pizza::ThinCrust { inner } => {
            lemma_description_follows_wrap_order(*inner);
            assert(wrappers_of(p).drop_last() =~= wrappers_of(*inner));
            assert(desc_of(p) =~= desc_of(base_of(p)) + suffixes_of(wrappers_of(p)));
        },
        Pizza::CheeseBurst { inner } => {
            lemma_description_follows_wrap_order(*inner);
            assert(wrappers_of(p).drop_last() =~= wrappers_of(*inner));
            assert(desc_of(p) =~= desc_of(base_of(p)) + suffixes_of(wrappers_of(p)));
        },
        Pizza::Cheese { inner, price } => {
            lemma_description_follows_wrap_order(*inner);
            assert(wrappers_of(p).drop_last() =~= wrappers_of(*inner));
            assert(desc_of(p) =~= desc_of(base_of(p)) + suffixes_of(wrappers_of(p)));
        },
        Pizza::Olives { inner, price } => {
            lemma_description_follows_wrap_order(*inner);
            assert(wrappers_of(p).drop_last() =~= wrappers_of(*inner));
            assert(desc_of(p) =~= desc_of(base_of(p)) + suffixes_of(wrappers_of(p)));
        },
        Pizza::Jalapenos { inner, price } => {
            lemma_description_follows_wrap_order(*inner);
            assert(wrappers_of(p).drop_last() =~= wrappers_of(*inner));
            assert(desc_of(p) =~= desc_of(base_of(p)) + suffixes_of(wrappers_of(p)));
        },
    }
}

/// Removing one layer takes exactly its surcharge out of the sum.
proof fn lemma_sum_surcharges_remove(ws: Seq<Wrapper>, i: int)
    requires
        0 <= i < ws.len(),
    ensures
        sum_surcharges(ws.remove(i)) == sum_surcharges(ws) - surcharge_of(ws[i]),
    decreases ws.len(),
{
    if i == ws.len() - 1 {
        assert(ws.remove(i) =~= ws.drop_last());
    } else {
        assert(ws.remove(i).drop_last() =~= ws.drop_last().remove(i));
        assert(ws.remove(i).last() == ws.last());
        lemma_sum_surcharges_remove(ws.drop_last(), i);
    }
}

/// The sum of surcharges depends only on which layers occur, not on
/// their order.
pub proof fn lemma_sum_surcharges_permutation(a: Seq<Wrapper>, b: Seq<Wrapper>)
    requires
        a.to_multiset() == b.to_multiset(),
    ensures
        sum_surcharges(a) == sum_surcharges(b),
    decreases a.len(),
{
    broadcast use vstd::seq_lib::group_to_multiset_ensures;

    if a.len() == 0 {
        assert(b.to_multiset().len() == 0);
        assert(b.len() == 0);
    } else {
        let w = a.last();
        let t = a.drop_last();
        assert(t.push(w) =~= a);
        assert(a.to_multiset() == t.to_multiset().insert(w));
        assert(b.to_multiset().count(w) > 0);
        assert(b.contains(w));
        let j = choose|j: int| 0 <= j < b.len() && b[j] == w;
        let b2 = b.remove(j);
        assert(b2.to_multiset() =~= t.to_multiset());
        lemma_sum_surcharges_permutation(t, b2);
        lemma_sum_surcharges_remove(b, j);
    }
}

/// Total cost does not depend on the wrapping order: two chains around
/// the same base, carrying the same decorator layers in any order, cost
/// the same.
pub proof fn lemma_cost_independent_of_wrap_order(p1: Pizza, p2: Pizza)
    requires
        base_of(p1) == base_of(p2),
        wrappers_of(p1).to_multiset() == wrappers_of(p2).to_multiset(),
    ensures
        cost_of(p1) == cost_of(p2),
{
    lemma_cost_is_base_plus_surcharges(p1);
    lemma_cost_is_base_plus_surcharges(p2);
    lemma_sum_surcharges_permutation(wrappers_of(p1), wrappers_of(p2));
}

/// Add a surcharge to a partial cost, keeping `None` on overflow.
fn add_surcharge(base: Option<u64>, surcharge: u64) -> (r: Option<u64>)
    ensures
        r is Some <==> (base is Some && base->Some_0 + surcharge <= u64::MAX),
        r is Some ==> r->Some_0 == base->Some_0 + surcharge,
{
    match base {
        Some(b) => {
            if b <= u64::MAX - surcharge {
                Some(b + surcharge)
            } else {
                None
            }
        },
        None => None,
    }
}

} // verus!
