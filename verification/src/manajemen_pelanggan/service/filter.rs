//! Narrowing a list of customers by name or by the date they joined.
use vstd::prelude::*;
use crate::clock::ymd_day_number;
use crate::manajemen_pelanggan::model::pelanggan::{Pelanggan, Tanggal};
use crate::text::{contains_text, has_substring};

verus! {

/// What a customer is kept for.
pub enum Criterion {
    /// The name contains this text.
    NamaContains(String),
    /// The customer joined before this day.
    JoinedBefore(i32),
    /// The customer joined after this day.
    JoinedAfter(i32),
}

/// Whether `p` meets the criterion.
pub open spec fn meets(c: Criterion, p: Pelanggan) -> bool {
    match c {
        Criterion::NamaContains(q) => has_substring(p.nama@, q@),
        Criterion::JoinedBefore(d) => p.tanggal_gabung.day_number < d,
        Criterion::JoinedAfter(d) => p.tanggal_gabung.day_number > d,
    }
}

fn meets_exec(c: &Criterion, p: &Pelanggan) -> (r: bool)
    ensures
        r == meets(*c, *p),
{
    match c {
        Criterion::NamaContains(q) => contains_text(p.nama.as_str(), q.as_str()),
        Criterion::JoinedBefore(d) => p.tanggal_gabung.day_number < *d,
        Criterion::JoinedAfter(d) => p.tanggal_gabung.day_number > *d,
    }
}

/// Keeps the customers that meet `c`, in their order.
pub fn retain_meeting(v: &mut Vec<Pelanggan>, c: &Criterion)
    ensures
        final(v)@ == old(v)@.filter(|p: Pelanggan| meets(*c, p)),
{
    let ghost s = v@;
    let ghost pred = |p: Pelanggan| meets(*c, p);
    let mut rest: Vec<Pelanggan> = Vec::new();
    std::mem::swap(&mut rest, v);
    let mut kept: Vec<Pelanggan> = Vec::new();
    let ghost mut k: int = 0;
    assert(s.subrange(0, 0) =~= Seq::<Pelanggan>::empty());
    assert(rest@ =~= s.subrange(0, s.len() as int));
    proof {
        reveal(Seq::filter);
    }
    while rest.len() > 0
        invariant
            0 <= k <= s.len(),
            rest@ == s.subrange(k, s.len() as int),
            kept@ == s.subrange(0, k).filter(pred),
            pred == (|p: Pelanggan| meets(*c, p)),
        decreases rest@.len(),
    {
        let x = rest.remove(0);
        proof {
            assert(x == s[k]);
            assert(s.subrange(0, k + 1) =~= s.subrange(0, k).push(x));
            s.subrange(0, k).lemma_filter_push(x, pred);
        }
        if meets_exec(c, &x) {
            kept.push(x);
        }
        proof {
            k = k + 1;
            assert(rest@ =~= s.subrange(k, s.len() as int));
        }
    }
    assert(s.subrange(0, k) =~= s);
    *v = kept;
}

/// The list `s` after filtering by the date in `query` with `c` built from
/// that date; unchanged where `query` is not a `YYYY-MM-DD` date.
pub open spec fn filtered_by_date(s: Seq<Pelanggan>, query: Seq<char>, before: bool) -> Seq<Pelanggan> {
    match ymd_day_number(query) {
        Some(d) => if before {
            s.filter(|p: Pelanggan| (p.tanggal_gabung.day_number as int) < d)
        } else {
            s.filter(|p: Pelanggan| (p.tanggal_gabung.day_number as int) > d)
        },
        None => s,
    }
}

/// A way of narrowing a list of customers by a query.
pub trait FilterStrategy {
    /// The list `s` narrowed by `query`.
    spec fn filtered(&self, s: Seq<Pelanggan>, query: Seq<char>) -> Seq<Pelanggan>;

    fn execute(&self, pelanggan_vec: &mut Vec<Pelanggan>, query: &str)
        ensures
            final(pelanggan_vec)@ == self.filtered(old(pelanggan_vec)@, query@),
    ;
}

/// Keeps the customers whose name contains the query.
pub struct FilterByNama;

impl FilterStrategy for FilterByNama {
    open spec fn filtered(&self, s: Seq<Pelanggan>, query: Seq<char>) -> Seq<Pelanggan> {
        s.filter(|p: Pelanggan| has_substring(p.nama@, query))
    }

    fn execute(&self, pelanggan_vec: &mut Vec<Pelanggan>, query: &str) {
        let c = Criterion::NamaContains(String::from_str(query));
        retain_meeting(pelanggan_vec, &c);
        assert((|p: Pelanggan| meets(c, p)) =~= (|p: Pelanggan| has_substring(p.nama@, query@)));
    }
}

/// Keeps the customers who joined before the date in the query.
pub struct FilterByTanggalGabungPrev;

impl FilterStrategy for FilterByTanggalGabungPrev {
    open spec fn filtered(&self, s: Seq<Pelanggan>, query: Seq<char>) -> Seq<Pelanggan> {
        filtered_by_date(s, query, true)
    }

    fn execute(&self, pelanggan_vec: &mut Vec<Pelanggan>, query: &str) {
        match Tanggal::parse(query) {
            Some(t) => {
                let c = Criterion::JoinedBefore(t.day_number);
                retain_meeting(pelanggan_vec, &c);
                assert((|p: Pelanggan| meets(c, p)) =~= (|p: Pelanggan| (p.tanggal_gabung.day_number as int) < (t.day_number as int)));
            },
            None => {},
        }
    }
}

/// Keeps the customers who joined after the date in the query.
pub struct FilterByTanggalGabungAfter;

impl FilterStrategy for FilterByTanggalGabungAfter {
    open spec fn filtered(&self, s: Seq<Pelanggan>, query: Seq<char>) -> Seq<Pelanggan> {
        filtered_by_date(s, query, false)
    }

    fn execute(&self, pelanggan_vec: &mut Vec<Pelanggan>, query: &str) {
        match Tanggal::parse(query) {
            Some(t) => {
                let c = Criterion::JoinedAfter(t.day_number);
                retain_meeting(pelanggan_vec, &c);
                assert((|p: Pelanggan| meets(c, p)) =~= (|p: Pelanggan| (p.tanggal_gabung.day_number as int) > (t.day_number as int)));
            },
            None => {},
        }
    }
}

/// One of the three filters, chosen at run time.
pub enum AnyFilterStrategy {
    Nama(FilterByNama),
    TanggalGabungPrev(FilterByTanggalGabungPrev),
    TanggalGabungAfter(FilterByTanggalGabungAfter),
}

impl FilterStrategy for AnyFilterStrategy {
    open spec fn filtered(&self, s: Seq<Pelanggan>, query: Seq<char>) -> Seq<Pelanggan> {
        match self {
            AnyFilterStrategy::Nama(f) => f.filtered(s, query),
            AnyFilterStrategy::TanggalGabungPrev(f) => f.filtered(s, query),
            AnyFilterStrategy::TanggalGabungAfter(f) => f.filtered(s, query),
        }
    }

    fn execute(&self, pelanggan_vec: &mut Vec<Pelanggan>, query: &str) {
        match self {
            AnyFilterStrategy::Nama(f) => f.execute(pelanggan_vec, query),
            AnyFilterStrategy::TanggalGabungPrev(f) => f.execute(pelanggan_vec, query),
            AnyFilterStrategy::TanggalGabungAfter(f) => f.execute(pelanggan_vec, query),
        }
    }
}

} // verus!
