//! Holds the order a list of customers is sorted in.
use vstd::prelude::*;
use crate::manajemen_pelanggan::model::pelanggan::Pelanggan;
use crate::manajemen_pelanggan::service::sort::{is_stable_sort, AnySortStrategy, SortByNama, SortStrategy};

verus! {

pub struct SortContext {
    sort_strategy: AnySortStrategy,
}

impl SortContext {
    /// The sort in use.
    pub closed spec fn strategy(&self) -> AnySortStrategy {
        self.sort_strategy
    }

    /// A context sorting by name.
    pub fn new() -> (c: Self)
        ensures
            c.strategy() == AnySortStrategy::Nama(SortByNama),
    {
        SortContext { sort_strategy: AnySortStrategy::Nama(SortByNama) }
    }

    /// Uses `sort_strategy` from now on.
    pub fn set_strategy(&mut self, sort_strategy: AnySortStrategy)
        ensures
            final(self).strategy() == sort_strategy,
    {
        self.sort_strategy = sort_strategy;
    }

    /// Sorts `customers` stably with the sort in use.
    pub fn execute_sort(&mut self, customers: &mut Vec<Pelanggan>)
        ensures
            final(self).strategy() == old(self).strategy(),
            is_stable_sort(old(self).strategy().key_spec(), old(customers)@, final(customers)@),
    {
        self.sort_strategy.execute(customers);
    }
}

} // verus!
