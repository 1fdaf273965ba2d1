//! Sorting and filtering customer lists by the names of the strategies a
//! request asks for.
use vstd::prelude::*;
use vstd::string::*;
use crate::manajemen_pelanggan::model::pelanggan::Pelanggan;
use crate::manajemen_pelanggan::service::filter::{
    AnyFilterStrategy, FilterByNama, FilterByTanggalGabungAfter, FilterByTanggalGabungPrev,
    FilterStrategy,
};
use crate::manajemen_pelanggan::service::filter_context::FilterContext;
use crate::manajemen_pelanggan::service::sort::{
    is_stable_sort, AnySortStrategy, SortByNama, SortByTanggalGabung, SortKey, SortStrategy,
};
use crate::manajemen_pelanggan::service::sort_context::SortContext;
use crate::text::same_text;

verus! {

/// The order a strategy name asks for: `nama` sorts by name and
/// `tanggal_gabung` by join date; any other name asks for no sorting.
pub open spec fn sort_key_named(name: Seq<char>) -> Option<SortKey> {
    if name == "nama"@ {
        Some(SortKey::Nama)
    } else if name == "tanggal_gabung"@ {
        Some(SortKey::TanggalGabung)
    } else {
        None
    }
}

/// The filter a strategy name asks for: `nama` filters by name,
/// `tanggal_gabung_prev` and `tanggal_gabung_after` by join date; any other
/// name asks for no filtering.
pub open spec fn filter_named(name: Seq<char>) -> Option<AnyFilterStrategy> {
    if name == "nama"@ {
        Some(AnyFilterStrategy::Nama(FilterByNama))
    } else if name == "tanggal_gabung_prev"@ {
        Some(AnyFilterStrategy::TanggalGabungPrev(FilterByTanggalGabungPrev))
    } else if name == "tanggal_gabung_after"@ {
        Some(AnyFilterStrategy::TanggalGabungAfter(FilterByTanggalGabungAfter))
    } else {
        None
    }
}

/// `r` is `s` sorted as the strategy `name` asks, or `s` itself where the
/// name is not known.
pub open spec fn sorted_as(name: Seq<char>, s: Seq<Pelanggan>, r: Seq<Pelanggan>) -> bool {
    match sort_key_named(name) {
        Some(key) => is_stable_sort(key, s, r),
        None => r == s,
    }
}

/// `s` narrowed by `query` with the filter `name` asks for, or `s` itself
/// where the name is not known.
pub open spec fn filtered_as(name: Seq<char>, s: Seq<Pelanggan>, query: Seq<char>) -> Seq<Pelanggan> {
    match filter_named(name) {
        Some(f) => f.filtered(s, query),
        None => s,
    }
}

/// `r` is `s` sorted as `sort` names, or `s` itself where no sort is named.
pub open spec fn sorts_to(sort: Option<String>, s: Seq<Pelanggan>, r: Seq<Pelanggan>) -> bool {
    match sort {
        Some(name) => sorted_as(name@, s, r),
        None => r == s,
    }
}

/// Customer operations; those here compute, the database work is done
/// around them.
pub struct PelangganService;

impl PelangganService {
    /// `pelanggan` sorted stably in the order `sort_strategy` names; left as
    /// it is where the name is not known.
    pub fn sort_pelanggan(pelanggan: Vec<Pelanggan>, sort_strategy: &str) -> (r: Vec<Pelanggan>)
        ensures
            sorted_as(sort_strategy@, pelanggan@, r@),
    {
        let mut pelanggan = pelanggan;
        let mut sort_context = SortContext::new();
        proof {
            reveal_strlit("nama");
            reveal_strlit("tanggal_gabung");
        }
        assert("nama"@.len() == 4);
        assert("tanggal_gabung"@.len() == 14);
        if same_text(sort_strategy, "nama") {
            sort_context.set_strategy(AnySortStrategy::Nama(SortByNama));
        } else if same_text(sort_strategy, "tanggal_gabung") {
            sort_context.set_strategy(AnySortStrategy::TanggalGabung(SortByTanggalGabung));
        } else {
            return pelanggan;
        }
        sort_context.execute_sort(&mut pelanggan);
        pelanggan
    }

    /// `pelanggan` narrowed by `keyword` with the filter `filter_strategy`
    /// names; left as it is where the name is not known.
    pub fn filter_pelanggan(pelanggan: Vec<Pelanggan>, filter_strategy: &str, keyword: &str) -> (r: Vec<Pelanggan>)
        ensures
            r@ == filtered_as(filter_strategy@, pelanggan@, keyword@),
    {
        let mut pelanggan = pelanggan;
        let mut filter_context = FilterContext::new();
        proof {
            reveal_strlit("nama");
            reveal_strlit("tanggal_gabung_prev");
            reveal_strlit("tanggal_gabung_after");
        }
        assert("nama"@.len() == 4);
        assert("tanggal_gabung_prev"@.len() == 19);
        assert("tanggal_gabung_after"@.len() == 20);
        if same_text(filter_strategy, "nama") {
            filter_context.set_strategy(AnyFilterStrategy::Nama(FilterByNama));
        } else if same_text(filter_strategy, "tanggal_gabung_prev") {
            filter_context.set_strategy(AnyFilterStrategy::TanggalGabungPrev(FilterByTanggalGabungPrev));
        } else if same_text(filter_strategy, "tanggal_gabung_after") {
            filter_context.set_strategy(AnyFilterStrategy::TanggalGabungAfter(FilterByTanggalGabungAfter));
        } else {
            return pelanggan;
        }
        filter_context.execute_filter(&mut pelanggan, keyword);
        pelanggan
    }

    /// A customer listing as a request asks for it: sorted where a sort is
    /// named, then narrowed where both a filter and a keyword are given.
    pub fn sort_and_filter(pelanggan: Vec<Pelanggan>, sort: Option<String>, filter: Option<String>, keyword: Option<String>) -> (r: Vec<Pelanggan>)
        ensures
            exists|sorted: Seq<Pelanggan>| {
                &&& #[trigger] sorts_to(sort, pelanggan@, sorted)
                &&& match (filter, keyword) {
                    (Some(f), Some(k)) => r@ == filtered_as(f@, sorted, k@),
                    _ => r@ == sorted,
                }
            },
    {
        let ghost old_list = pelanggan@;
        let mut pelanggan = pelanggan;
        match &sort {
            Some(s) => {
                pelanggan = Self::sort_pelanggan(pelanggan, s.as_str());
            },
            None => {},
        }
        let ghost sorted = pelanggan@;
        assert(sorts_to(sort, old_list, sorted));
        match (&filter, &keyword) {
            (Some(f), Some(k)) => {
                pelanggan = Self::filter_pelanggan(pelanggan, f.as_str(), k.as_str());
            },
            _ => {},
        }
        pelanggan
    }
}

} // verus!
