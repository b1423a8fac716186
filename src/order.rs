//! The ascending order on byte strings and on `(table_handle, key_hash)` keys
//! that fixes the write order of keyed entities.
use vstd::prelude::*;

verus! {

/// `a` comes before `b` when compared byte by byte from position `i` on; a
/// proper prefix comes first.
pub open spec fn lt_from(a: Seq<u8>, b: Seq<u8>, i: int) -> bool
    decreases a.len() - i,
{
    if i >= a.len() {
        i < b.len()
    } else if i >= b.len() {
        false
    } else if a[i] != b[i] {
        a[i] < b[i]
    } else {
        lt_from(a, b, i + 1)
    }
}

/// The lexicographic order on byte strings.
pub open spec fn bytes_lt(a: Seq<u8>, b: Seq<u8>) -> bool {
    lt_from(a, b, 0)
}

/// A key of a table slot: its table handle and its key hash.
pub type SlotKey = (Seq<u8>, Seq<u8>);

/// The lexicographic order on keys: by handle, then by key hash.
pub open spec fn key_lt(a: SlotKey, b: SlotKey) -> bool {
    bytes_lt(a.0, b.0) || (a.0 == b.0 && bytes_lt(a.1, b.1))
}

proof fn lemma_lt_from_irreflexive(a: Seq<u8>, i: int)
    requires
        0 <= i,
    ensures
        !lt_from(a, a, i),
    decreases a.len() - i,
{
    if i < a.len() {
        lemma_lt_from_irreflexive(a, i + 1);
    }
}

proof fn lemma_lt_from_transitive(a: Seq<u8>, b: Seq<u8>, c: Seq<u8>, i: int)
    requires
        0 <= i,
        lt_from(a, b, i),
        lt_from(b, c, i),
    ensures
        lt_from(a, c, i),
    decreases a.len() - i,
{
    if i < a.len() && i < b.len() && i < c.len() && a[i] == b[i] && b[i] == c[i] {
        lemma_lt_from_transitive(a, b, c, i + 1);
    }
}

proof fn lemma_lt_from_total(a: Seq<u8>, b: Seq<u8>, i: int)
    requires
        0 <= i <= a.len(),
        i <= b.len(),
        forall|j: int| 0 <= j < i ==> a[j] == b[j],
        a != b,
    ensures
        lt_from(a, b, i) || lt_from(b, a, i),
    decreases a.len() - i,
{
    if i == a.len() && i == b.len() {
        assert(a =~= b);
    } else if i < a.len() && i < b.len() && a[i] == b[i] {
        lemma_lt_from_total(a, b, i + 1);
    }
}

proof fn lemma_lt_from_asymmetric(a: Seq<u8>, b: Seq<u8>, i: int)
    requires
        0 <= i,
        lt_from(a, b, i),
    ensures
        !lt_from(b, a, i),
    decreases a.len() - i,
{
    if i < a.len() && i < b.len() && a[i] == b[i] {
        lemma_lt_from_asymmetric(a, b, i + 1);
    }
}

/// No key comes before itself.
pub proof fn lemma_key_lt_irreflexive(a: SlotKey)
    ensures
        !key_lt(a, a),
{
    lemma_lt_from_irreflexive(a.0, 0);
    lemma_lt_from_irreflexive(a.1, 0);
}

/// Two keys are never each before the other.
pub proof fn lemma_key_lt_asymmetric(a: SlotKey, b: SlotKey)
    requires
        key_lt(a, b),
    ensures
        !key_lt(b, a),
{
    if bytes_lt(a.0, b.0) {
        lemma_lt_from_asymmetric(a.0, b.0, 0);
        if b.0 == a.0 {
            lemma_lt_from_irreflexive(a.0, 0);
        }
    } else {
        lemma_lt_from_asymmetric(a.1, b.1, 0);
        lemma_lt_from_irreflexive(a.0, 0);
    }
}

/// The order on keys is transitive.
pub proof fn lemma_key_lt_transitive(a: SlotKey, b: SlotKey, c: SlotKey)
    requires
        key_lt(a, b),
        key_lt(b, c),
    ensures
        key_lt(a, c),
{
    if bytes_lt(a.0, b.0) && bytes_lt(b.0, c.0) {
        lemma_lt_from_transitive(a.0, b.0, c.0, 0);
    } else if a.0 == b.0 && b.0 == c.0 {
        lemma_lt_from_transitive(a.1, b.1, c.1, 0);
    }
}

/// Of two different keys, one comes before the other.
pub proof fn lemma_key_lt_total(a: SlotKey, b: SlotKey)
    requires
        a != b,
    ensures
        key_lt(a, b) || key_lt(b, a),
{
    if a.0 != b.0 {
        lemma_lt_from_total(a.0, b.0, 0);
    } else {
        assert(a.1 != b.1);
        lemma_lt_from_total(a.1, b.1, 0);
    }
}

/// Compares two byte strings lexicographically.
pub fn compare_bytes(a: &Vec<u8>, b: &Vec<u8>) -> (r: core::cmp::Ordering)
    ensures
        (r == core::cmp::Ordering::Less) == bytes_lt(a@, b@),
        (r == core::cmp::Ordering::Equal) == (a@ == b@),
        (r == core::cmp::Ordering::Greater) == bytes_lt(b@, a@),
{
    let mut i: usize = 0;
    while i < a.len() && i < b.len() && a[i] == b[i]
        invariant
            i <= a@.len(),
            i <= b@.len(),
            forall|j: int| 0 <= j < i ==> a@[j] == b@[j],
            lt_from(a@, b@, 0) == lt_from(a@, b@, i as int),
            lt_from(b@, a@, 0) == lt_from(b@, a@, i as int),
        decreases a@.len() - i,
    {
        i = i + 1;
    }
    proof {
        lemma_lt_from_irreflexive(a@, 0);
        if a@ != b@ {
            lemma_lt_from_total(a@, b@, i as int);
            if lt_from(a@, b@, i as int) {
                lemma_lt_from_asymmetric(a@, b@, i as int);
            } else {
                lemma_lt_from_asymmetric(b@, a@, i as int);
            }
        } else {
            lemma_lt_from_irreflexive(a@, i as int);
        }
    }
    if i < a.len() && i < b.len() {
        if a[i] < b[i] {
            core::cmp::Ordering::Less
        } else {
            core::cmp::Ordering::Greater
        }
    } else if i < b.len() {
        core::cmp::Ordering::Less
    } else if i < a.len() {
        core::cmp::Ordering::Greater
    } else {
        assert(a@ =~= b@);
        core::cmp::Ordering::Equal
    }
}

/// Compares two keys given as their parts.
pub fn compare_keys(a0: &Vec<u8>, a1: &Vec<u8>, b0: &Vec<u8>, b1: &Vec<u8>) -> (r:
    core::cmp::Ordering)
    ensures
        (r == core::cmp::Ordering::Less) == key_lt((a0@, a1@), (b0@, b1@)),
        (r == core::cmp::Ordering::Equal) == ((a0@, a1@) == (b0@, b1@)),
        (r == core::cmp::Ordering::Greater) == key_lt((b0@, b1@), (a0@, a1@)),
{
    let first = compare_bytes(a0, b0);
    match first {
        core::cmp::Ordering::Equal => compare_bytes(a1, b1),
        _ => first,
    }
}

} // verus!
