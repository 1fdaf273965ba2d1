//! An in-memory store of payments, keyed by payment identifier.
use vstd::prelude::*;
use vstd::string::*;
use crate::manajemen_pembayaran::enums::payment_status::PaymentStatus;
use crate::manajemen_pembayaran::model::payment::{Payment, PaymentMethod, PaymentView};
use crate::manajemen_pembayaran::repository::payment_repository::{
    is_listed, method_name_upper, opt_filters, PaymentFilters,
};
use crate::text::{same_text, to_uppercase};

verus! {

/// No two stored payments share an identifier.
pub open spec fn unique_ids(s: Seq<PaymentView>) -> bool {
    forall|i: int, j: int|
        0 <= i < s.len() && 0 <= j < s.len() && i != j ==> #[trigger] s[i].id != #[trigger] s[j].id
}

/// No two stored payments belong to the same transaction.
pub open spec fn unique_transactions(s: Seq<PaymentView>) -> bool {
    forall|i: int, j: int|
        0 <= i < s.len() && 0 <= j < s.len() && i != j ==> #[trigger] s[i].transaction_id
            != #[trigger] s[j].transaction_id
}

/// A payment with identifier `id` is stored.
pub open spec fn has_id(s: Seq<PaymentView>, id: Seq<char>) -> bool {
    exists|i: int| 0 <= i < s.len() && #[trigger] s[i].id == id
}

/// A payment of transaction `tx` is stored.
pub open spec fn has_transaction(s: Seq<PaymentView>, tx: Seq<char>) -> bool {
    exists|i: int| 0 <= i < s.len() && #[trigger] s[i].transaction_id == tx
}

/// `p` is the payment stored with identifier `id`.
pub open spec fn stored_under(s: Seq<PaymentView>, id: Seq<char>, p: PaymentView) -> bool {
    exists|i: int| 0 <= i < s.len() && #[trigger] s[i] == p && p.id == id
}

/// `s` with the payment that has `p`'s identifier replaced by `p`.
pub open spec fn replace_by_id(s: Seq<PaymentView>, p: PaymentView) -> Seq<PaymentView> {
    s.map_values(|q: PaymentView| if q.id == p.id { p } else { q })
}

/// `s` with `p` stored under its identifier: replacing the payment stored
/// there, or added after the others.
pub open spec fn upsert(s: Seq<PaymentView>, p: PaymentView) -> Seq<PaymentView> {
    if has_id(s, p.id) {
        replace_by_id(s, p)
    } else {
        s.push(p)
    }
}

/// `s` with the payment stored under `id` taken out.
pub open spec fn removed(s: Seq<PaymentView>, id: Seq<char>, r: Seq<PaymentView>) -> bool {
    exists|i: int| 0 <= i < s.len() && #[trigger] s[i].id == id && r == s.remove(i)
}

/// The message a missing payment is reported with.
pub open spec fn not_found_message(id: Seq<char>) -> Seq<char> {
    "Pembayaran dengan ID "@ + id + " tidak ditemukan"@
}

pub(crate) fn not_found_text(id: &str) -> (r: String)
    ensures
        r@ == not_found_message(id@),
{
    String::from_str("Pembayaran dengan ID ").concat(id).concat(" tidak ditemukan")
}

/// The values of a sequence of payments.
pub open spec fn payment_views(s: Seq<Payment>) -> Seq<PaymentView> {
    s.map_values(|p: Payment| p@)
}

/// Saving keeps identifiers unique.
pub proof fn lemma_upsert_keeps_unique_ids(s: Seq<PaymentView>, p: PaymentView)
    requires
        unique_ids(s),
    ensures
        unique_ids(upsert(s, p)),
{
    let s2 = upsert(s, p);
    assert forall|i: int, j: int|
        0 <= i < s2.len() && 0 <= j < s2.len() && i != j implies #[trigger] s2[i].id != #[trigger] s2[j].id by {
        if has_id(s, p.id) {
            let k = choose|k: int| 0 <= k < s.len() && #[trigger] s[k].id == p.id;
            if s[i].id == p.id && s[j].id == p.id {
                assert(s[i].id != s[j].id);
            }
        } else {
            if i == s.len() {
                assert(s[j].id != p.id);
            } else if j == s.len() {
                assert(s[i].id != p.id);
            }
        }
    }
}

/// A payment read back after it was saved is the payment saved.
pub proof fn lemma_read_after_save(s: Seq<PaymentView>, p: PaymentView, q: PaymentView)
    requires
        unique_ids(s),
    ensures
        has_id(upsert(s, p), p.id),
        stored_under(upsert(s, p), p.id, q) ==> q == p,
{
    let s2 = upsert(s, p);
    lemma_upsert_keeps_unique_ids(s, p);
    if has_id(s, p.id) {
        let k = choose|k: int| 0 <= k < s.len() && #[trigger] s[k].id == p.id;
        assert(s2[k] == p);
        assert(s2[k].id == p.id);
    } else {
        assert(s2[s.len() as int] == p);
        assert(s2[s.len() as int].id == p.id);
    }
    if stored_under(s2, p.id, q) {
        let i = choose|i: int| 0 <= i < s2.len() && #[trigger] s2[i] == q && q.id == p.id;
        if has_id(s, p.id) {
            assert(s2[i] == (if s[i].id == p.id { p } else { s[i] }));
        } else if i < s.len() {
            assert(s2[i] == s[i]);
            assert(false);
        }
    }
}

/// Saving a payment leaves what is read under any other identifier as it
/// was.
pub proof fn lemma_save_leaves_others(s: Seq<PaymentView>, p: PaymentView, id: Seq<char>, q: PaymentView)
    requires
        id != p.id,
    ensures
        has_id(upsert(s, p), id) == has_id(s, id),
        stored_under(upsert(s, p), id, q) == stored_under(s, id, q),
{
    let s2 = upsert(s, p);
    if has_id(s, p.id) {
        assert forall|i: int| 0 <= i < s.len() && s[i].id != p.id implies #[trigger] s2[i] == s[i] by {}
        assert forall|i: int| 0 <= i < s.len() && s[i].id == p.id implies #[trigger] s2[i] == p by {}
        if has_id(s, id) {
            let i = choose|i: int| 0 <= i < s.len() && #[trigger] s[i].id == id;
            assert(s2[i].id == id);
        }
        if has_id(s2, id) {
            let i = choose|i: int| 0 <= i < s2.len() && #[trigger] s2[i].id == id;
            assert(s[i].id == id);
        }
        if stored_under(s, id, q) {
            let i = choose|i: int| 0 <= i < s.len() && #[trigger] s[i] == q && q.id == id;
            assert(s2[i] == q);
        }
        if stored_under(s2, id, q) {
            let i = choose|i: int| 0 <= i < s2.len() && #[trigger] s2[i] == q && q.id == id;
            assert(s[i] == q);
        }
    } else {
        if has_id(s, id) {
            let i = choose|i: int| 0 <= i < s.len() && #[trigger] s[i].id == id;
            assert(s2[i].id == id);
        }
        if has_id(s2, id) {
            let i = choose|i: int| 0 <= i < s2.len() && #[trigger] s2[i].id == id;
            assert(s[i].id == id);
        }
        if stored_under(s, id, q) {
            let i = choose|i: int| 0 <= i < s.len() && #[trigger] s[i] == q && q.id == id;
            assert(s2[i] == q);
        }
        if stored_under(s2, id, q) {
            let i = choose|i: int| 0 <= i < s2.len() && #[trigger] s2[i] == q && q.id == id;
            assert(s[i] == q);
        }
    }
}

/// After a deletion nothing is read under the deleted identifier, and every
/// other identifier is read as before.
pub proof fn lemma_read_after_delete(s: Seq<PaymentView>, id: Seq<char>, s2: Seq<PaymentView>, other: Seq<char>)
    requires
        unique_ids(s),
        removed(s, id, s2),
        other != id,
    ensures
        !has_id(s2, id),
        has_id(s2, other) == has_id(s, other),
{
    let k = choose|k: int| 0 <= k < s.len() && #[trigger] s[k].id == id && s2 == s.remove(k);
    if has_id(s2, id) {
        let i = choose|i: int| 0 <= i < s2.len() && #[trigger] s2[i].id == id;
        let i2 = if i < k { i } else { i + 1 };
        assert(s2[i] == s[i2]);
        assert(s[i2].id != s[k].id);
    }
    if has_id(s, other) {
        let i = choose|i: int| 0 <= i < s.len() && #[trigger] s[i].id == other;
        if i < k {
            assert(s2[i] == s[i]);
        } else {
            assert(i != k);
            assert(s2[i - 1] == s[i]);
        }
    }
    if has_id(s2, other) {
        let i = choose|i: int| 0 <= i < s2.len() && #[trigger] s2[i].id == other;
        let i2 = if i < k { i } else { i + 1 };
        assert(s2[i] == s[i2]);
    }
}

/// An update of a stored payment is what is read back under its identifier.
pub proof fn lemma_read_after_update(s: Seq<PaymentView>, p: PaymentView, q: PaymentView)
    requires
        unique_ids(s),
        has_id(s, p.id),
    ensures
        upsert(s, p) == replace_by_id(s, p),
        has_id(replace_by_id(s, p), p.id),
        stored_under(replace_by_id(s, p), p.id, q) ==> q == p,
{
    lemma_read_after_save(s, p, q);
}

/// Payments stored in memory, in the order they were first stored.
pub struct PaymentRepositoryImpl {
    payments: Vec<Payment>,
}

impl View for PaymentRepositoryImpl {
    type V = Seq<PaymentView>;

    closed spec fn view(&self) -> Seq<PaymentView> {
        payment_views(self.payments@)
    }
}

impl PaymentRepositoryImpl {
    /// Identifiers are unique.
    pub open spec fn wf(&self) -> bool {
        unique_ids(self@)
    }

    /// An empty store.
    pub fn new() -> (r: Self)
        ensures
            r@ == Seq::<PaymentView>::empty(),
            r.wf(),
    {
        let r = PaymentRepositoryImpl { payments: Vec::new() };
        assert(r@ =~= Seq::<PaymentView>::empty());
        r
    }

    fn index_of_id(&self, id: &str) -> (r: Option<usize>)
        ensures
            match r {
                Some(i) => i < self@.len() && self@[i as int].id == id@,
                None => !has_id(self@, id@),
            },
    {
        let mut i: usize = 0;
        while i < self.payments.len()
            invariant
                i <= self.payments@.len(),
                self@ == payment_views(self.payments@),
                forall|k: int| 0 <= k < i ==> self@[k].id != id@,
            decreases self.payments@.len() - i,
        {
            if same_text(self.payments[i].id.as_str(), id) {
                return Some(i);
            }
            i = i + 1;
        }
        None
    }

    /// Stores `payment` under its identifier, replacing any payment stored
    /// there, and hands back a copy of it.
    pub fn save(&mut self, payment: Payment) -> (r: Result<Payment, String>)
        requires
            old(self).wf(),
        ensures
            final(self).wf(),
            final(self)@ == upsert(old(self)@, payment@),
            r matches Ok(p) && p@ == payment@,
    {
        let copy = payment.clone();
        match self.index_of_id(payment.id.as_str()) {
            Some(i) => {
                let ghost before = self@;
                self.payments[i] = payment;
                proof {
                    assert(self@ =~= replace_by_id(before, copy@)) by {
                        assert forall|k: int| 0 <= k < before.len() implies #[trigger] self@[k] == (
                        if before[k].id == copy@.id {
                            copy@
                        } else {
                            before[k]
                        }) by {
                            if k != i {
                                assert(before[k].id != before[i as int].id);
                            }
                        }
                    }
                    assert(has_id(before, copy@.id));
                }
            },
            None => {
                self.payments.push(payment);
                assert(self@ =~= old(self)@.push(copy@));
            },
        }
        Ok(copy)
    }

    /// A copy of the payment stored under `id`, if any.
    pub fn find_by_id(&self, id: &str) -> (r: Option<Payment>)
        ensures
            r is Some <==> has_id(self@, id@),
            r matches Some(p) ==> stored_under(self@, id@, p@),
    {
        match self.index_of_id(id) {
            Some(i) => {
                let p = self.payments[i].clone();
                assert(self@[i as int] == p@);
                Some(p)
            },
            None => None,
        }
    }

    /// A copy of the first stored payment of transaction `transaction_id`,
    /// if any.
    pub fn find_by_transaction_id(&self, transaction_id: &str) -> (r: Option<Payment>)
        ensures
            r is Some <==> has_transaction(self@, transaction_id@),
            r matches Some(p) ==> exists|i: int|
                0 <= i < self@.len() && #[trigger] self@[i] == p@ && p@.transaction_id
                    == transaction_id@ && forall|j: int|
                    0 <= j < i ==> self@[j].transaction_id != transaction_id@,
    {
        let mut i: usize = 0;
        while i < self.payments.len()
            invariant
                i <= self.payments@.len(),
                self@ == payment_views(self.payments@),
                forall|k: int| 0 <= k < i ==> self@[k].transaction_id != transaction_id@,
            decreases self.payments@.len() - i,
        {
            if same_text(self.payments[i].transaction_id.as_str(), transaction_id) {
                let p = self.payments[i].clone();
                assert(self@[i as int] == p@);
                assert(self@[i as int].transaction_id == transaction_id@);
                return Some(p);
            }
            i = i + 1;
        }
        None
    }

    /// Copies of the stored payments that the filters list, in the order
    /// they are stored.
    pub fn find_all(&self, filters: &Option<PaymentFilters>) -> (r: Vec<Payment>)
        ensures
            payment_views(r@) == self@.filter(|p: PaymentView| is_listed(p, opt_filters(*filters))),
    {
        let ghost pred = |p: PaymentView| is_listed(p, opt_filters(*filters));
        let mut status: Option<PaymentStatus> = None;
        let mut method_upper: Option<String> = None;
        match filters {
            Some(f) => {
                match &f.status {
                    Some(s) => {
                        status = PaymentStatus::from_string(s.as_str());
                    },
                    None => {},
                }
                match &f.method {
                    Some(m) => {
                        method_upper = Some(to_uppercase(m.as_str()));
                    },
                    None => {},
                }
            },
            None => {},
        }
        let cash = String::from_str("CASH");
        let credit_card = String::from_str("CREDITCARD");
        let bank_transfer = String::from_str("BANKTRANSFER");
        let e_wallet = String::from_str("EWALLET");
        let mut r: Vec<Payment> = Vec::new();
        let mut i: usize = 0;
        while i < self.payments.len()
            invariant
                i <= self.payments@.len(),
                self@ == payment_views(self.payments@),
                payment_views(r@) == self@.subrange(0, i as int).filter(pred),
                pred == (|p: PaymentView| is_listed(p, opt_filters(*filters))),
                cash@ == method_name_upper(PaymentMethod::Cash),
                credit_card@ == method_name_upper(PaymentMethod::CreditCard),
                bank_transfer@ == method_name_upper(PaymentMethod::BankTransfer),
                e_wallet@ == method_name_upper(PaymentMethod::EWallet),
                match filters {
                    None => status is None && method_upper is None,
                    Some(f) => {
                        &&& match f.status {
                            Some(s) => status == crate::manajemen_pembayaran::enums::payment_status::status_of_text(s@),
                            None => status is None,
                        }
                        &&& match f.method {
                            Some(m) => method_upper matches Some(u) && u@ == crate::text::uppercase_of(m@),
                            None => method_upper is None,
                        }
                    },
                },
            decreases self.payments@.len() - i,
        {
            let p = &self.payments[i];
            let status_ok = match status {
                Some(st) => p.status == st,
                None => true,
            };
            let method_ok = match &method_upper {
                Some(u) => {
                    let name = match p.method {
                        PaymentMethod::Cash => &cash,
                        PaymentMethod::CreditCard => &credit_card,
                        PaymentMethod::BankTransfer => &bank_transfer,
                        PaymentMethod::EWallet => &e_wallet,
                    };
                    *u == *name
                },
                None => true,
            };
            proof {
                assert(self@.subrange(0, i + 1) =~= self@.subrange(0, i as int).push(self@[i as int]));
                self@.subrange(0, i as int).lemma_filter_push(self@[i as int], pred);
                assert((status_ok && method_ok) == pred(self@[i as int]));
            }
            if status_ok && method_ok {
                let ghost before = r@;
                r.push(p.clone());
                assert(payment_views(r@) =~= payment_views(before).push(self@[i as int]));
            }
            i = i + 1;
        }
        assert(self@.subrange(0, self@.len() as int) =~= self@);
        r
    }

    /// Replaces the payment stored under `payment`'s identifier; fails,
    /// changing nothing, where none is stored.
    pub fn update(&mut self, payment: Payment) -> (r: Result<Payment, String>)
        requires
            old(self).wf(),
        ensures
            final(self).wf(),
            has_id(old(self)@, payment@.id) ==> {
                &&& final(self)@ == replace_by_id(old(self)@, payment@)
                &&& r matches Ok(p) && p@ == payment@
            },
            !has_id(old(self)@, payment@.id) ==> {
                &&& final(self)@ == old(self)@
                &&& r matches Err(msg) && msg@ == not_found_message(payment@.id)
            },
    {
        match self.index_of_id(payment.id.as_str()) {
            Some(_) => self.save(payment),
            None => Err(not_found_text(payment.id.as_str())),
        }
    }

    /// Takes out the payment stored under `id`; fails, changing nothing,
    /// where none is stored.
    pub fn delete(&mut self, id: &str) -> (r: Result<(), String>)
        requires
            old(self).wf(),
        ensures
            final(self).wf(),
            has_id(old(self)@, id@) ==> r is Ok && removed(old(self)@, id@, final(self)@),
            !has_id(old(self)@, id@) ==> {
                &&& final(self)@ == old(self)@
                &&& r matches Err(msg) && msg@ == not_found_message(id@)
            },
    {
        match self.index_of_id(id) {
            Some(i) => {
                let ghost before = self@;
                self.payments.remove(i);
                proof {
                    assert(self@ =~= before.remove(i as int));
                    assert(before[i as int].id == id@);
                    assert forall|a: int, b: int|
                        0 <= a < self@.len() && 0 <= b < self@.len() && a != b implies #[trigger] self@[a].id != #[trigger] self@[b].id by {
                        let a2 = if a < i { a } else { a + 1 };
                        let b2 = if b < i { b } else { b + 1 };
                        assert(self@[a] == before[a2]);
                        assert(self@[b] == before[b2]);
                    }
                }
                Ok(())
            },
            None => Err(not_found_text(id)),
        }
    }
}

} // verus!
