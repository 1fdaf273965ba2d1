//! Holds the filter a list of customers is narrowed with.
use vstd::prelude::*;
use crate::manajemen_pelanggan::model::pelanggan::Pelanggan;
use crate::manajemen_pelanggan::service::filter::{AnyFilterStrategy, FilterByNama, FilterStrategy};

verus! {

pub struct FilterContext {
    filter_strategy: AnyFilterStrategy,
}

impl FilterContext {
    /// The filter in use.
    pub closed spec fn strategy(&self) -> AnyFilterStrategy {
        self.filter_strategy
    }

    /// A context filtering by name.
    pub fn new() -> (c: Self)
        ensures
            c.strategy() == AnyFilterStrategy::Nama(FilterByNama),
    {
        FilterContext { filter_strategy: AnyFilterStrategy::Nama(FilterByNama) }
    }

    /// Uses `filter_strategy` from now on.
    pub fn set_strategy(&mut self, filter_strategy: AnyFilterStrategy)
        ensures
            final(self).strategy() == filter_strategy,
    {
        self.filter_strategy = filter_strategy;
    }

    /// Narrows `customers` by `query` with the filter in use.
    pub fn execute_filter(&mut self, customers: &mut Vec<Pelanggan>, query: &str)
        ensures
            final(self).strategy() == old(self).strategy(),
            final(customers)@ == old(self).strategy().filtered(old(customers)@, query@),
    {
        self.filter_strategy.execute(customers, query);
    }
}

impl Default for FilterContext {
    fn default() -> (c: Self)
        ensures
            c.strategy() == AnyFilterStrategy::Nama(FilterByNama),
    {
        Self::new()
    }
}

} // verus!
