//! Collapsing the write-set change details of one batch: append-only entities
//! are kept in order, keyed ones keep their last value per key and come out in
//! ascending key order.
use vstd::prelude::*;

use crate::order::{
    compare_bytes, compare_keys, key_lt, lemma_key_lt_asymmetric, lemma_key_lt_irreflexive,
    lemma_key_lt_transitive,
    SlotKey,
};
use crate::records::{
    CurrentTableItem, MoveModule, MoveResource, TableItem, TableMetadata, WriteSetChangeDetail,
};

verus! {

/// An entity with a key in the write order.
pub trait Keyed {
    spec fn key(&self) -> SlotKey;

    fn compare_key(&self, other: &Self) -> (r: core::cmp::Ordering)
        ensures
            (r == core::cmp::Ordering::Less) == key_lt(self.key(), other.key()),
            (r == core::cmp::Ordering::Equal) == (self.key() == other.key()),
            (r == core::cmp::Ordering::Greater) == key_lt(other.key(), self.key()),
    ;
}

impl Keyed for CurrentTableItem {
    open spec fn key(&self) -> SlotKey {
        (self.table_handle@, self.key_hash@)
    }

    fn compare_key(&self, other: &Self) -> (r: core::cmp::Ordering) {
        compare_keys(&self.table_handle, &self.key_hash, &other.table_handle, &other.key_hash)
    }
}

/// Table metadata is keyed by its handle alone.
impl Keyed for TableMetadata {
    open spec fn key(&self) -> SlotKey {
        (self.handle@, Seq::empty())
    }

    fn compare_key(&self, other: &Self) -> (r: core::cmp::Ordering) {
        proof {
            lemma_key_lt_irreflexive((Seq::<u8>::empty(), Seq::<u8>::empty()));
        }
        compare_bytes(&self.handle, &other.handle)
    }
}

/// Keys strictly ascend along `s`; so no key occurs twice.
pub open spec fn strictly_sorted<T: Keyed>(s: Seq<T>) -> bool {
    forall|i: int, j: int| 0 <= i < j < s.len() ==> key_lt(#[trigger] s[i].key(), #[trigger] s[j].key())
}

/// `s` lists exactly the values of `m`, each under its own key.
pub open spec fn holds_exactly<T: Keyed>(s: Seq<T>, m: Map<SlotKey, T>) -> bool {
    &&& forall|i: int| 0 <= i < s.len() ==> m.contains_key(#[trigger] s[i].key()) && m[s[i].key()] == s[i]
    &&& forall|k: SlotKey| #[trigger] m.contains_key(k) ==> exists|i: int| 0 <= i < s.len() && s[i].key() == k
}

proof fn lemma_sorted_distinct<T: Keyed>(s: Seq<T>, i: int, j: int)
    requires
        strictly_sorted(s),
        0 <= i < s.len(),
        0 <= j < s.len(),
        i != j,
    ensures
        s[i].key() != s[j].key(),
{
    if i < j {
        assert(key_lt(s[i].key(), s[j].key()));
    } else {
        assert(key_lt(s[j].key(), s[i].key()));
    }
    lemma_key_lt_irreflexive(s[i].key());
}

/// Puts `item` under its key into the sorted `v`, replacing the value that
/// held that key.
fn upsert_sorted<T: Keyed>(v: &mut Vec<T>, item: T, Ghost(m): Ghost<Map<SlotKey, T>>)
    requires
        strictly_sorted(old(v)@),
        holds_exactly(old(v)@, m),
    ensures
        strictly_sorted(final(v)@),
        holds_exactly(final(v)@, m.insert(item.key(), item)),
{
    let ghost s = v@;
    let mut j: usize = 0;
    let mut done = false;
    let mut found = false;
    while !done && j < v.len()
        invariant
            v@ == s,
            j <= s.len(),
            forall|i: int| 0 <= i < j ==> key_lt(#[trigger] s[i].key(), item.key()),
            done ==> j < s.len(),
            done && found ==> s[j as int].key() == item.key(),
            done && !found ==> key_lt(item.key(), s[j as int].key()),
            !done ==> !found,
        decreases s.len() - j + (if done { 0int } else { 1int }),
    {
        match v[j].compare_key(&item) {
            core::cmp::Ordering::Less => {
                j = j + 1;
            },
            core::cmp::Ordering::Equal => {
                found = true;
                done = true;
            },
            core::cmp::Ordering::Greater => {
                done = true;
            },
        }
    }
    let ghost k = item.key();
    let ghost m2 = m.insert(k, item);
    if found {
        v.set(j, item);
        proof {
            let s2 = v@;
            assert forall|i: int| 0 <= i < s2.len() implies #[trigger] s2[i].key() == s[i].key() by {}
            assert forall|i: int| 0 <= i < s2.len() implies m2.contains_key(#[trigger] s2[i].key())
                && m2[s2[i].key()] == s2[i] by {
                if i != j {
                    lemma_sorted_distinct(s, i, j as int);
                }
            }
            assert forall|q: SlotKey| #[trigger] m2.contains_key(q) implies exists|i: int|
                0 <= i < s2.len() && s2[i].key() == q by {
                if q == k {
                    assert(s2[j as int].key() == q);
                } else {
                    let i = choose|i: int| 0 <= i < s.len() && s[i].key() == q;
                    assert(s2[i].key() == q);
                }
            }
        }
    } else {
        v.insert(j, item);
        proof {
            let s2 = v@;
            assert forall|i: int| j <= i < s.len() implies key_lt(k, #[trigger] s[i].key()) by {
                if i > j {
                    assert(key_lt(s[j as int].key(), s[i].key()));
                    lemma_key_lt_transitive(k, s[j as int].key(), s[i].key());
                }
            }
            assert forall|i: int| 0 <= i < s.len() implies #[trigger] s[i].key() != k by {
                if i < j {
                    assert(key_lt(s[i].key(), k));
                } else {
                    assert(key_lt(k, s[i].key()));
                }
                lemma_key_lt_irreflexive(k);
            }
            assert forall|a: int, b: int| 0 <= a < b < s2.len() implies key_lt(
                #[trigger] s2[a].key(),
                #[trigger] s2[b].key(),
            ) by {
                if b < j {
                    assert(key_lt(s[a].key(), s[b].key()));
                } else if b == j {
                    assert(key_lt(s[a].key(), k));
                } else if a < j {
                    assert(key_lt(s[a].key(), s[b - 1].key()));
                } else if a == j {
                    assert(key_lt(k, s[b - 1].key()));
                } else {
                    assert(key_lt(s[a - 1].key(), s[b - 1].key()));
                }
            }
            assert forall|i: int| 0 <= i < s2.len() implies m2.contains_key(#[trigger] s2[i].key())
                && m2[s2[i].key()] == s2[i] by {
                if i < j {
                    assert(s2[i] == s[i]);
                    assert(s[i].key() != k);
                } else if i > j {
                    assert(s2[i] == s[i - 1]);
                    assert(s[i - 1].key() != k);
                }
            }
            assert forall|q: SlotKey| #[trigger] m2.contains_key(q) implies exists|i: int|
                0 <= i < s2.len() && s2[i].key() == q by {
                if q == k {
                    assert(s2[j as int].key() == q);
                } else {
                    let i = choose|i: int| 0 <= i < s.len() && s[i].key() == q;
                    if i < j {
                        assert(s2[i].key() == q);
                    } else {
                        assert(s2[i + 1].key() == q);
                    }
                }
            }
        }
    }
}

/// The modules among `d`, in order.
pub open spec fn modules_of(d: Seq<WriteSetChangeDetail>) -> Seq<MoveModule>
    decreases d.len(),
{
    if d.len() == 0 {
        Seq::empty()
    } else {
        match d.last() {
            WriteSetChangeDetail::Module(x) => modules_of(d.drop_last()).push(x),
            _ => modules_of(d.drop_last()),
        }
    }
}

/// The resources among `d`, in order.
pub open spec fn resources_of(d: Seq<WriteSetChangeDetail>) -> Seq<MoveResource>
    decreases d.len(),
{
    if d.len() == 0 {
        Seq::empty()
    } else {
        match d.last() {
            WriteSetChangeDetail::Resource(x) => resources_of(d.drop_last()).push(x),
            _ => resources_of(d.drop_last()),
        }
    }
}

/// The table items among `d`, in order.
pub open spec fn table_items_of(d: Seq<WriteSetChangeDetail>) -> Seq<TableItem>
    decreases d.len(),
{
    if d.len() == 0 {
        Seq::empty()
    } else {
        match d.last() {
            WriteSetChangeDetail::Table(x, _, _) => table_items_of(d.drop_last()).push(x),
            _ => table_items_of(d.drop_last()),
        }
    }
}

/// Each table slot written in `d`, with the value of its last write.
pub open spec fn latest_items(d: Seq<WriteSetChangeDetail>) -> Map<SlotKey, CurrentTableItem>
    decreases d.len(),
{
    if d.len() == 0 {
        Map::empty()
    } else {
        match d.last() {
            WriteSetChangeDetail::Table(_, c, _) => latest_items(d.drop_last()).insert(c.key(), c),
            _ => latest_items(d.drop_last()),
        }
    }
}

/// Each table whose metadata `d` carries, with the metadata of its last
/// occurrence.
pub open spec fn latest_metadata(d: Seq<WriteSetChangeDetail>) -> Map<SlotKey, TableMetadata>
    decreases d.len(),
{
    if d.len() == 0 {
        Map::empty()
    } else {
        match d.last() {
            WriteSetChangeDetail::Table(_, _, Some(t)) => latest_metadata(d.drop_last()).insert(
                t.key(),
                t,
            ),
            _ => latest_metadata(d.drop_last()),
        }
    }
}

/// The write-set change details of a batch, collapsed for writing.
pub struct CollapsedChanges {
    pub move_modules: Vec<MoveModule>,
    pub move_resources: Vec<MoveResource>,
    pub table_items: Vec<TableItem>,
    pub current_table_items: Vec<CurrentTableItem>,
    pub table_metadata: Vec<TableMetadata>,
}

/// What collapsing `d` yields.
pub open spec fn collapses_to(d: Seq<WriteSetChangeDetail>, r: CollapsedChanges) -> bool {
    &&& r.move_modules@ == modules_of(d)
    &&& r.move_resources@ == resources_of(d)
    &&& r.table_items@ == table_items_of(d)
    &&& strictly_sorted(r.current_table_items@)
    &&& holds_exactly(r.current_table_items@, latest_items(d))
    &&& strictly_sorted(r.table_metadata@)
    &&& holds_exactly(r.table_metadata@, latest_metadata(d))
}

/// Splits `details` by kind. Modules, resources and table items keep their
/// order; current table items keep the last value per `(table_handle,
/// key_hash)` and table metadata the last per handle, both sorted ascending by
/// key.
pub fn collapse(details: Vec<WriteSetChangeDetail>) -> (r: CollapsedChanges)
    ensures
        collapses_to(details@, r),
{
    let ghost d = details@;
    let mut r = CollapsedChanges {
        move_modules: Vec::new(),
        move_resources: Vec::new(),
        table_items: Vec::new(),
        current_table_items: Vec::new(),
        table_metadata: Vec::new(),
    };
    for detail in it: details.into_iter()
        invariant
            it.seq() == d,
            collapses_to(d.subrange(0, it.index() as int), r),
    {
        let ghost p = d.subrange(0, it.index() as int);
        let ghost p2 = d.subrange(0, it.index() as int + 1);
        assert(p2.drop_last() =~= p);
        match detail {
            WriteSetChangeDetail::Module(x) => r.move_modules.push(x),
            WriteSetChangeDetail::Resource(x) => r.move_resources.push(x),
            WriteSetChangeDetail::Table(item, current, metadata) => {
                r.table_items.push(item);
                upsert_sorted(&mut r.current_table_items, current, Ghost(latest_items(p)));
                match metadata {
                    Some(t) => upsert_sorted(&mut r.table_metadata, t, Ghost(latest_metadata(p))),
                    None => {},
                }
            },
        }
    }
    assert(d.subrange(0, d.len() as int) =~= d);
    r
}

/// `d[i]` writes table slot `k`, and no later detail of `d` writes it again.
pub open spec fn last_write_to(d: Seq<WriteSetChangeDetail>, i: int, k: SlotKey) -> bool {
    &&& 0 <= i < d.len()
    &&& d[i] is Table
    &&& d[i]->Table_1.key() == k
    &&& forall|j: int| i < j < d.len() && (#[trigger] d[j] is Table) ==> d[j]->Table_1.key() != k
}

proof fn lemma_latest_item(d: Seq<WriteSetChangeDetail>, i: int, k: SlotKey)
    requires
        last_write_to(d, i, k),
    ensures
        latest_items(d).contains_key(k),
        latest_items(d)[k] == d[i]->Table_1,
    decreases d.len(),
{
    if i < d.len() - 1 {
        let p = d.drop_last();
        assert(p[i] == d[i]);
        assert forall|j: int| i < j < p.len() && (#[trigger] p[j] is Table) implies p[j]->Table_1.key()
            != k by {
            assert(p[j] == d[j]);
        }
        lemma_latest_item(p, i, k);
        if d.last() is Table {
            assert(d[d.len() - 1] is Table);
        }
    }
}

/// Last write wins: where `d[i]` is the last write to a table slot, the
/// collapsed current table items hold its value for that slot, exactly once.
pub proof fn lemma_last_write_wins(d: Seq<WriteSetChangeDetail>, r: CollapsedChanges, i: int)
    requires
        collapses_to(d, r),
        0 <= i < d.len(),
        d[i] is Table,
        last_write_to(d, i, d[i]->Table_1.key()),
    ensures
        exists|p: int|
            0 <= p < r.current_table_items@.len() && r.current_table_items@[p] == d[i]->Table_1
                && forall|q: int|
                0 <= q < r.current_table_items@.len() && #[trigger] r.current_table_items@[q].key()
                    == d[i]->Table_1.key() ==> q == p,
{
    let c = d[i]->Table_1;
    let s = r.current_table_items@;
    lemma_latest_item(d, i, c.key());
    assert(latest_items(d).contains_key(c.key()));
    let p = choose|p: int| 0 <= p < s.len() && s[p].key() == c.key();
    assert(s[p] == c);
    assert forall|q: int| 0 <= q < s.len() && #[trigger] s[q].key() == c.key() implies q == p by {
        if q != p {
            lemma_sorted_distinct(s, q, p);
        }
    }
}

/// A map has one strictly sorted listing only.
pub proof fn lemma_sorted_listing_unique<T: Keyed>(s1: Seq<T>, s2: Seq<T>, m: Map<SlotKey, T>)
    requires
        strictly_sorted(s1),
        strictly_sorted(s2),
        holds_exactly(s1, m),
        holds_exactly(s2, m),
    ensures
        s1 == s2,
    decreases s1.len(),
{
    if s1.len() == 0 {
        if s2.len() > 0 {
            assert(m.contains_key(s2[0].key()));
        }
        assert(s1 =~= s2);
    } else {
        let n1 = s1.len() - 1;
        let k1 = s1[n1].key();
        assert(m.contains_key(k1));
        let j = choose|j: int| 0 <= j < s2.len() && s2[j].key() == k1;
        let n2 = s2.len() - 1;
        let k2 = s2[n2].key();
        if j < n2 {
            assert(key_lt(k1, k2));
            assert(m.contains_key(k2));
            let i = choose|i: int| 0 <= i < s1.len() && s1[i].key() == k2;
            if i < n1 {
                assert(key_lt(k2, k1));
                lemma_key_lt_asymmetric(k1, k2);
            } else {
                lemma_key_lt_irreflexive(k1);
            }
        }
        assert(k1 == k2);
        let m2 = m.remove(k1);
        let t1 = s1.drop_last();
        let t2 = s2.drop_last();
        assert forall|i: int| 0 <= i < t1.len() implies m2.contains_key(#[trigger] t1[i].key())
            && m2[t1[i].key()] == t1[i] by {
            lemma_sorted_distinct(s1, i, n1);
        }
        assert forall|i: int| 0 <= i < t2.len() implies m2.contains_key(#[trigger] t2[i].key())
            && m2[t2[i].key()] == t2[i] by {
            lemma_sorted_distinct(s2, i, n2);
        }
        assert forall|q: SlotKey| #[trigger] m2.contains_key(q) implies exists|i: int|
            0 <= i < t1.len() && t1[i].key() == q by {
            let i = choose|i: int| 0 <= i < s1.len() && s1[i].key() == q;
            assert(t1[i].key() == q);
        }
        assert forall|q: SlotKey| #[trigger] m2.contains_key(q) implies exists|i: int|
            0 <= i < t2.len() && t2[i].key() == q by {
            let i = choose|i: int| 0 <= i < s2.len() && s2[i].key() == q;
            assert(t2[i].key() == q);
        }
        lemma_sorted_listing_unique(t1, t2, m2);
        assert(s1 =~= t1.push(s1[n1]));
        assert(s2 =~= t2.push(s2[n2]));
    }
}

/// Deterministic order: two batches whose table writes leave the same latest
/// value per slot, and the same metadata per table, collapse to the same
/// sequences of current table items and of table metadata, whatever the order
/// in which those writes came.
pub proof fn lemma_collapse_order_determined(
    d1: Seq<WriteSetChangeDetail>,
    r1: CollapsedChanges,
    d2: Seq<WriteSetChangeDetail>,
    r2: CollapsedChanges,
)
    requires
        collapses_to(d1, r1),
        collapses_to(d2, r2),
        latest_items(d1) == latest_items(d2),
        latest_metadata(d1) == latest_metadata(d2),
    ensures
        r1.current_table_items@ == r2.current_table_items@,
        r1.table_metadata@ == r2.table_metadata@,
{
    lemma_sorted_listing_unique(
        r1.current_table_items@,
        r2.current_table_items@,
        latest_items(d1),
    );
    lemma_sorted_listing_unique(r1.table_metadata@, r2.table_metadata@, latest_metadata(d1));
}

} // verus!
