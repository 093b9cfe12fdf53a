//! In-memory order store: a table from order identifier to order, unique
//! keys, insert-or-overwrite semantics.

use vstd::prelude::*;

use crate::order::{order, total_of};

verus! {

/// No two orders in the sequence share an identifier.
pub open spec fn ids_unique(s: Seq<order>) -> bool {
    forall|i: int, j: int| 0 <= i < j < s.len() ==> s[i]@.id != s[j]@.id
}

/// The entry with the given identifier, if any.
pub open spec fn seq_get(s: Seq<order>, id: u64) -> Option<order>
    decreases s.len(),
{
    if s.len() == 0 {
        None
    } else if s.last()@.id == id {
        Some(s.last())
    } else {
        seq_get(s.drop_last(), id)
    }
}

/// An entry at any index of a sequence with unique identifiers is the one
/// `seq_get` finds under its identifier.
proof fn lemma_seq_get_present(s: Seq<order>, i: int)
    requires
        ids_unique(s),
        0 <= i < s.len(),
    ensures
        seq_get(s, s[i]@.id) == Some(s[i]),
    decreases s.len(),
{
    if i < s.len() - 1 {
        assert(ids_unique(s.drop_last()));
        lemma_seq_get_present(s.drop_last(), i);
    }
}

/// Where no entry carries the identifier, `seq_get` finds none.
proof fn lemma_seq_get_absent(s: Seq<order>, id: u64)
    requires
        forall|i: int| 0 <= i < s.len() ==> s[i]@.id != id,
    ensures
        seq_get(s, id) is None,
    decreases s.len(),
{
    if s.len() > 0 {
        lemma_seq_get_absent(s.drop_last(), id);
    }
}

/// Replacing the entry at an index changes `seq_get` only under the old
/// and new identifiers of that entry.
proof fn lemma_seq_get_update(s: Seq<order>, i: int, o: order)
    requires
        ids_unique(s),
        0 <= i < s.len(),
        s[i]@.id == o@.id,
    ensures
        ids_unique(s.update(i, o)),
        seq_get(s.update(i, o), o@.id) == Some(o),
        forall|id: u64| id != o@.id ==> seq_get(s.update(i, o), id) == seq_get(s, id),
    decreases s.len(),
{
    let t = s.update(i, o);
    assert(ids_unique(t));
    lemma_seq_get_present(t, i);
    assert forall|id: u64| id != o@.id implies seq_get(t, id) == seq_get(s, id) by {
        lemma_seq_get_other(s, i, o, id);
    }
}

/// Helper for `lemma_seq_get_update`: one identifier other than the
/// replaced entry's.
proof fn lemma_seq_get_other(s: Seq<order>, i: int, o: order, id: u64)
    requires
        0 <= i < s.len(),
        s[i]@.id == o@.id,
        id != o@.id,
    ensures
        seq_get(s.update(i, o), id) == seq_get(s, id),
    decreases s.len(),
{
    let t = s.update(i, o);
    if i == s.len() - 1 {
        assert(t.drop_last() =~= s.drop_last());
    } else {
        assert(t.last() == s.last());
        assert(t.drop_last() =~= s.drop_last().update(i, o));
        if s.last()@.id != id {
            lemma_seq_get_other(s.drop_last(), i, o, id);
        }
    }
}

/// Appending an entry with a fresh identifier adds it under its
/// identifier and changes nothing else.
proof fn lemma_seq_get_push(s: Seq<order>, o: order)
    ensures
        seq_get(s.push(o), o@.id) == Some(o),
        forall|id: u64| id != o@.id ==> seq_get(s.push(o), id) == seq_get(s, id),
{
    assert(s.push(o).drop_last() =~= s);
}

/// The order table. All reads and writes go through it; an insert under
/// an identifier already present silently replaces the previous entry.
pub struct SharedOrderState {
    orders: Vec<order>,
}

impl SharedOrderState {
    /// The stored entries, in insertion order.
    pub closed spec fn spec_orders(&self) -> Seq<order> {
        self.orders@
    }

    /// The stored entry under an identifier, if any.
    pub open spec fn spec_get(&self, id: u64) -> Option<order> {
        seq_get(self.spec_orders(), id)
    }

    /// The table is well formed: identifiers are unique.
    pub open spec fn wf(&self) -> bool {
        ids_unique(self.spec_orders())
    }

    /// An empty table.
    pub fn new() -> (r: Self)
        ensures
            r.wf(),
            r.spec_orders() == Seq::<order>::empty(),
            forall|id: u64| r.spec_get(id) is None,
    {
        let r = SharedOrderState { orders: Vec::new() };
        proof {
            assert forall|id: u64| r.spec_get(id) is None by {
                lemma_seq_get_absent(r.spec_orders(), id);
            }
        }
        r
    }

    /// Insert an order under its identifier, replacing any previous entry
    /// with the same identifier.
    pub fn add_order(&mut self, o: order)
        requires
            old(self).wf(),
        ensures
            final(self).wf(),
            final(self).spec_get(o@.id) == Some(o),
            forall|id: u64|
                id != o@.id ==> final(self).spec_get(id) == old(self).spec_get(id),
    {
        let n = self.orders.len();
        let mut i: usize = 0;
        while i < n
            invariant
                self == old(self),
                old(self).wf(),
                n == self.orders@.len(),
                0 <= i <= n,
                forall|k: int| 0 <= k < i ==> self.orders@[k]@.id != o@.id,
            decreases n - i,
        {
            if self.orders[i].id.0 == o.id.0 {
                proof {
                    lemma_seq_get_update(self.orders@, i as int, o);
                }
                self.orders.set(i, o);
                return ;
            }
            i = i + 1;
        }
        proof {
            lemma_seq_get_push(self.orders@, o);
        }
        self.orders.push(o);
    }

    /// Look up an order by identifier; a copy of the stored entry comes
    /// back if one is present.
    pub fn get_order(&self, id: u64) -> (r: Option<order>)
        requires
            self.wf(),
        ensures
            r is Some <==> self.spec_get(id) is Some,
            r is Some ==> r->Some_0@ == self.spec_get(id)->Some_0@,
            r matches Some(o) ==> o@.id == id,
    {
        let n = self.orders.len();
        let mut i: usize = 0;
        while i < n
            invariant
                self.wf(),
                n == self.orders@.len(),
                0 <= i <= n,
                forall|k: int| 0 <= k < i ==> self.orders@[k]@.id != id,
            decreases n - i,
        {
            if self.orders[i].id.0 == id {
                proof {
                    lemma_seq_get_present(self.orders@, i as int);
                }
                return Some(self.orders[i].clone());
            }
            i = i + 1;
        }
        proof {
            lemma_seq_get_absent(self.orders@, id);
        }
        None
    }

    /// A snapshot copy of all current entries.
    pub fn list_orders(&self) -> (r: Vec<order>)
        ensures
            r@.len() == self.spec_orders().len(),
            forall|i: int| 0 <= i < r@.len() ==> r@[i]@ == self.spec_orders()[i]@,
    {
        let n = self.orders.len();
        let mut r: Vec<order> = Vec::new();
        let mut i: usize = 0;
        while i < n
            invariant
                n == self.orders@.len(),
                0 <= i <= n,
                r@.len() == i,
                forall|k: int| 0 <= k < i ==> r@[k]@ == self.orders@[k]@,
            decreases n - i,
        {
            r.push(self.orders[i].clone());
            i = i + 1;
        }
        r
    }
}

/// `add` followed by `get` with the same identifier returns an order with
/// the same total cost and item count as was added: after an insert of
/// `o`, the lookup under `o`'s identifier finds an entry whose content
/// matches `o`.
pub proof fn lemma_add_then_get(before: SharedOrderState, after: SharedOrderState, o: order)
    requires
        before.wf(),
        after.wf(),
        after.spec_get(o@.id) == Some(o),
        forall|id: u64| id != o@.id ==> after.spec_get(id) == before.spec_get(id),
    ensures
        total_of(after.spec_get(o@.id)->Some_0@) == total_of(o@),
        after.spec_get(o@.id)->Some_0@.items.len() == o@.items.len(),
{
}

} // verus!
