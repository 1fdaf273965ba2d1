//! Sorting customers by name or by the date they joined. Both sorts are
//! stable: customers with the same key keep their relative order.
use vstd::prelude::*;
use crate::manajemen_pelanggan::model::pelanggan::Pelanggan;
use crate::text::{
    lemma_text_le_antisymmetric, lemma_text_le_reflexive, lemma_text_le_total,
    lemma_text_le_transitive, text_le, text_le_exec,
};

verus! {

/// What customers are ordered by.
#[derive(Debug, Clone, Copy, PartialEq, Eq, Structural)]
pub enum SortKey {
    Nama,
    TanggalGabung,
}

/// `a` comes no later than `b` in the order by `key`.
pub open spec fn key_le(key: SortKey, a: Pelanggan, b: Pelanggan) -> bool {
    match key {
        SortKey::Nama => text_le(a.nama@, b.nama@),
        SortKey::TanggalGabung => a.tanggal_gabung.day_number <= b.tanggal_gabung.day_number,
    }
}

/// `a` and `b` have the same key.
pub open spec fn same_key(key: SortKey, a: Pelanggan, b: Pelanggan) -> bool {
    match key {
        SortKey::Nama => a.nama@ == b.nama@,
        SortKey::TanggalGabung => a.tanggal_gabung.day_number == b.tanggal_gabung.day_number,
    }
}

/// The customers of `s` with the same key as `y`, in their order in `s`.
pub open spec fn key_class(key: SortKey, s: Seq<Pelanggan>, y: Pelanggan) -> Seq<Pelanggan> {
    s.filter(|e: Pelanggan| same_key(key, e, y))
}

/// `s` is in order by `key`.
pub open spec fn sorted_by(key: SortKey, s: Seq<Pelanggan>) -> bool {
    forall|i: int, j: int| 0 <= i < j < s.len() ==> key_le(key, #[trigger] s[i], #[trigger] s[j])
}

/// `r` holds the customers of `s`, and those with equal keys in the same
/// relative order.
pub open spec fn same_classes(key: SortKey, s: Seq<Pelanggan>, r: Seq<Pelanggan>) -> bool {
    forall|y: Pelanggan| #[trigger] key_class(key, r, y) == key_class(key, s, y)
}

/// `r` is `s` sorted stably by `key`.
pub open spec fn is_stable_sort(key: SortKey, s: Seq<Pelanggan>, r: Seq<Pelanggan>) -> bool {
    sorted_by(key, r) && same_classes(key, s, r)
}

proof fn lemma_key_le_facts(key: SortKey, a: Pelanggan, b: Pelanggan, c: Pelanggan)
    ensures
        key_le(key, a, a),
        key_le(key, a, b) || key_le(key, b, a),
        key_le(key, a, b) && key_le(key, b, c) ==> key_le(key, a, c),
        same_key(key, a, b) ==> key_le(key, a, b),
{
    match key {
        SortKey::Nama => {
            lemma_text_le_reflexive(a.nama@);
            lemma_text_le_total(a.nama@, b.nama@);
            if text_le(a.nama@, b.nama@) && text_le(b.nama@, c.nama@) {
                lemma_text_le_transitive(a.nama@, b.nama@, c.nama@);
            }
        },
        SortKey::TanggalGabung => {},
    }
}

fn key_le_exec(key: SortKey, a: &Pelanggan, b: &Pelanggan) -> (r: bool)
    ensures
        r == key_le(key, *a, *b),
{
    match key {
        SortKey::Nama => text_le_exec(a.nama.as_str(), b.nama.as_str()),
        SortKey::TanggalGabung => a.tanggal_gabung.day_number <= b.tanggal_gabung.day_number,
    }
}

proof fn lemma_class_of_push(key: SortKey, s: Seq<Pelanggan>, x: Pelanggan, y: Pelanggan)
    ensures
        key_class(key, s.push(x), y) == if same_key(key, x, y) {
            key_class(key, s, y).push(x)
        } else {
            key_class(key, s, y)
        },
{
    s.lemma_filter_push(x, |e: Pelanggan| same_key(key, e, y));
}

proof fn lemma_class_of_insert(key: SortKey, s: Seq<Pelanggan>, j: int, x: Pelanggan, y: Pelanggan)
    requires
        0 <= j <= s.len(),
        forall|m: int| j <= m < s.len() ==> !key_le(key, #[trigger] s[m], x),
    ensures
        key_class(key, s.insert(j, x), y) == if same_key(key, x, y) {
            key_class(key, s, y).push(x)
        } else {
            key_class(key, s, y)
        },
{
    let pred = |e: Pelanggan| same_key(key, e, y);
    let a = s.subrange(0, j);
    let b = s.subrange(j, s.len() as int);
    assert(s =~= a + b);
    assert(s.insert(j, x) =~= a.push(x) + b);
    Seq::filter_distributes_over_add(a, b, pred);
    Seq::filter_distributes_over_add(a.push(x), b, pred);
    a.lemma_filter_push(x, pred);
    if same_key(key, x, y) {
        assert forall|m: int| 0 <= m < b.len() implies !pred(#[trigger] b[m]) by {
            lemma_key_le_facts(key, b[m], x, x);
            assert(!key_le(key, s[j + m], x));
        }
        b.lemma_all_neg_filter_empty(pred);
        assert(b.filter(pred) =~= Seq::<Pelanggan>::empty());
        assert(a.filter(pred) + b.filter(pred) =~= a.filter(pred));
        assert(a.filter(pred).push(x) + b.filter(pred) =~= a.filter(pred).push(x));
    }
}

proof fn lemma_key_le_antisymmetric(key: SortKey, a: Pelanggan, b: Pelanggan)
    requires
        key_le(key, a, b),
        key_le(key, b, a),
    ensures
        same_key(key, a, b),
{
    if key == SortKey::Nama {
        lemma_text_le_antisymmetric(a.nama@, b.nama@);
    }
}

/// With `r1` in order and holding every key class of `r2`, the last
/// customer of `r2` has a key no later than the last of `r1`.
proof fn lemma_last_key_bounded(key: SortKey, r1: Seq<Pelanggan>, r2: Seq<Pelanggan>)
    requires
        sorted_by(key, r1),
        forall|y: Pelanggan| #[trigger] key_class(key, r1, y) == key_class(key, r2, y),
        r2.len() > 0,
    ensures
        r1.len() > 0,
        key_le(key, r2.last(), r1.last()),
{
    let b = r2.last();
    let pred = |e: Pelanggan| same_key(key, e, b);
    assert(r2 =~= r2.drop_last().push(b));
    lemma_class_of_push(key, r2.drop_last(), b, b);
    assert(key_class(key, r1, b).len() > 0);
    r1.lemma_filter_len(pred);
    let e = key_class(key, r1, b)[0];
    r1.lemma_filter_pred(pred, 0);
    assert(key_class(key, r1, b).contains(e));
    r1.lemma_filter_contains_rev(pred, e);
    let i = choose|i: int| 0 <= i < r1.len() && r1[i] == e;
    let a = r1.last();
    lemma_key_le_facts(key, e, a, a);
    lemma_key_le_facts(key, b, e, a);
    if i < r1.len() - 1 {
        assert(key_le(key, r1[i], r1[r1.len() - 1]));
    }
    assert(same_key(key, b, e));
}

proof fn lemma_same_key_same_class(key: SortKey, s: Seq<Pelanggan>, a: Pelanggan, b: Pelanggan)
    requires
        same_key(key, a, b),
    ensures
        key_class(key, s, a) == key_class(key, s, b),
{
    assert((|e: Pelanggan| same_key(key, e, a)) =~= (|e: Pelanggan| same_key(key, e, b)));
}

/// Two sequences in order by `key` that keep the same key classes, in the
/// same order, are equal.
proof fn lemma_sorted_same_classes_equal(key: SortKey, r1: Seq<Pelanggan>, r2: Seq<Pelanggan>)
    requires
        sorted_by(key, r1),
        sorted_by(key, r2),
        forall|y: Pelanggan| #[trigger] key_class(key, r1, y) == key_class(key, r2, y),
    ensures
        r1 == r2,
    decreases r1.len(),
{
    if r2.len() > 0 {
        lemma_last_key_bounded(key, r1, r2);
    }
    if r1.len() > 0 {
        assert forall|y: Pelanggan| #[trigger] key_class(key, r2, y) == key_class(key, r1, y) by {}
        lemma_last_key_bounded(key, r2, r1);
    }
    if r1.len() == 0 {
        assert(r1 =~= r2);
    } else {
        let a = r1.last();
        let b = r2.last();
        lemma_key_le_antisymmetric(key, a, b);
        let p1 = r1.drop_last();
        let p2 = r2.drop_last();
        assert(r1 =~= p1.push(a));
        assert(r2 =~= p2.push(b));
        lemma_class_of_push(key, p1, a, a);
        lemma_class_of_push(key, p2, b, b);
        lemma_same_key_same_class(key, r2, a, b);
        assert(key_class(key, r1, a).last() == a);
        assert(key_class(key, r2, b).last() == b);
        assert(a == b);
        assert forall|i: int, j: int| 0 <= i < j < p1.len() implies key_le(key, #[trigger] p1[i], #[trigger] p1[j]) by {
            assert(p1[i] == r1[i] && p1[j] == r1[j]);
        }
        assert forall|i: int, j: int| 0 <= i < j < p2.len() implies key_le(key, #[trigger] p2[i], #[trigger] p2[j]) by {
            assert(p2[i] == r2[i] && p2[j] == r2[j]);
        }
        assert forall|y: Pelanggan| #[trigger] key_class(key, p1, y) == key_class(key, p2, y) by {
            lemma_class_of_push(key, p1, a, y);
            lemma_class_of_push(key, p2, a, y);
            if same_key(key, a, y) {
                assert(key_class(key, p1, y) =~= key_class(key, r1, y).drop_last());
                assert(key_class(key, p2, y) =~= key_class(key, r2, y).drop_last());
            }
        }
        lemma_sorted_same_classes_equal(key, p1, p2);
    }
}

/// Sorting stably has one result: two stable sorts of the same customers
/// by the same key are equal.
pub proof fn lemma_stable_sort_unique(key: SortKey, s: Seq<Pelanggan>, r1: Seq<Pelanggan>, r2: Seq<Pelanggan>)
    requires
        is_stable_sort(key, s, r1),
        is_stable_sort(key, s, r2),
    ensures
        r1 == r2,
{
    assert forall|y: Pelanggan| #[trigger] key_class(key, r1, y) == key_class(key, r2, y) by {
        assert(key_class(key, r1, y) == key_class(key, s, y));
        assert(key_class(key, r2, y) == key_class(key, s, y));
    }
    lemma_sorted_same_classes_equal(key, r1, r2);
}

/// Sorting customers already in order leaves them as they are; so sorting
/// twice gives what sorting once gives.
pub proof fn lemma_sorting_sorted_is_identity(key: SortKey, s: Seq<Pelanggan>, r: Seq<Pelanggan>)
    requires
        sorted_by(key, s),
        is_stable_sort(key, s, r),
    ensures
        r == s,
{
    assert(is_stable_sort(key, s, s));
    lemma_stable_sort_unique(key, s, r, s);
}

/// Sorts `v` stably by `key`.
pub fn sort_by_key(v: &mut Vec<Pelanggan>, key: SortKey)
    ensures
        is_stable_sort(key, old(v)@, final(v)@),
{
    let ghost s = v@;
    let mut rest: Vec<Pelanggan> = Vec::new();
    std::mem::swap(&mut rest, v);
    let mut out: Vec<Pelanggan> = Vec::new();
    let ghost mut k: int = 0;
    assert(s.subrange(0, 0) =~= Seq::<Pelanggan>::empty());
    assert(rest@ =~= s.subrange(0, s.len() as int));
    while rest.len() > 0
        invariant
            0 <= k <= s.len(),
            rest@ == s.subrange(k, s.len() as int),
            sorted_by(key, out@),
            forall|y: Pelanggan| #[trigger] key_class(key, out@, y) == key_class(key, s.subrange(0, k), y),
        decreases rest@.len(),
    {
        let x = rest.remove(0);
        assert(x == s[k]);
        let mut j = out.len();
        while j > 0 && !key_le_exec(key, &out[j - 1], &x)
            invariant
                j <= out@.len(),
                forall|m: int| j <= m < out@.len() ==> !key_le(key, #[trigger] out@[m], x),
            decreases j,
        {
            j = j - 1;
        }
        let ghost before = out@;
        out.insert(j, x);
        proof {
            assert forall|y: Pelanggan| #[trigger] key_class(key, out@, y) == key_class(key, s.subrange(0, k + 1), y) by {
                lemma_class_of_insert(key, before, j as int, x, y);
                assert(s.subrange(0, k + 1) =~= s.subrange(0, k).push(x));
                lemma_class_of_push(key, s.subrange(0, k), x, y);
            }
            assert forall|a: int, b: int| 0 <= a < b < out@.len() implies key_le(key, #[trigger] out@[a], #[trigger] out@[b]) by {
                if b < j {
                    assert(out@[a] == before[a] && out@[b] == before[b]);
                } else if b == j {
                    assert(out@[b] == x);
                    assert(out@[a] == before[a]);
                    assert(key_le(key, before[j - 1], x));
                    if a < j - 1 {
                        assert(key_le(key, before[a], before[j - 1]));
                    }
                    lemma_key_le_facts(key, before[a], before[j - 1], x);
                } else if a == j {
                    assert(out@[a] == x);
                    assert(out@[b] == before[b - 1]);
                    lemma_key_le_facts(key, before[b - 1], x, x);
                } else if a < j {
                    assert(out@[a] == before[a]);
                    assert(out@[b] == before[b - 1]);
                    if a < b - 1 {
                        assert(key_le(key, before[a], before[b - 1]));
                    }
                    lemma_key_le_facts(key, before[a], before[a], before[b - 1]);
                } else {
                    assert(out@[a] == before[a - 1]);
                    assert(out@[b] == before[b - 1]);
                }
            }
            k = k + 1;
            assert(rest@ =~= s.subrange(k, s.len() as int));
        }
    }
    assert(s.subrange(0, k) =~= s);
    *v = out;
}

/// A way of ordering a list of customers.
pub trait SortStrategy {
    /// The key the list is ordered by.
    spec fn key_spec(&self) -> SortKey;

    /// Sorts `customers` stably by the key.
    fn execute(&self, customers: &mut Vec<Pelanggan>)
        ensures
            is_stable_sort(self.key_spec(), old(customers)@, final(customers)@),
    ;
}

/// Orders customers by name.
pub struct SortByNama;

impl SortStrategy for SortByNama {
    open spec fn key_spec(&self) -> SortKey {
        SortKey::Nama
    }

    fn execute(&self, customers: &mut Vec<Pelanggan>) {
        sort_by_key(customers, SortKey::Nama);
    }
}

/// Orders customers by the date they joined.
pub struct SortByTanggalGabung;

impl SortStrategy for SortByTanggalGabung {
    open spec fn key_spec(&self) -> SortKey {
        SortKey::TanggalGabung
    }

    fn execute(&self, customers: &mut Vec<Pelanggan>) {
        sort_by_key(customers, SortKey::TanggalGabung);
    }
}

/// Either sort, chosen at run time.
pub enum AnySortStrategy {
    Nama(SortByNama),
    TanggalGabung(SortByTanggalGabung),
}

impl SortStrategy for AnySortStrategy {
    open spec fn key_spec(&self) -> SortKey {
        match self {
            AnySortStrategy::Nama(s) => s.key_spec(),
            AnySortStrategy::TanggalGabung(s) => s.key_spec(),
        }
    }

    fn execute(&self, customers: &mut Vec<Pelanggan>) {
        match self {
            AnySortStrategy::Nama(s) => s.execute(customers),
            AnySortStrategy::TanggalGabung(s) => s.execute(customers),
        }
    }
}

} // verus!
