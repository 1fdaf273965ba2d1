//! The command-driven payment service over the in-memory store: every operation runs as a
//! command and tells the observers about the payment it changed.
use vstd::prelude::*;
use crate::manajemen_pembayaran::enums::payment_status::PaymentStatus;
use crate::manajemen_pembayaran::model::payment::{Payment, PaymentMethod, PaymentView};
use crate::manajemen_pembayaran::patterns::command::{
    add_installment_outcome, create_outcome, delete_outcome, lemma_found_is_stored, lemma_stored_at, stored,
    PaymentCommand,
    update_status_outcome, AddInstallmentCommand, CreatePaymentCommand, DeletePaymentCommand,
    UpdatePaymentStatusCommand,
};
use crate::manajemen_pembayaran::patterns::observer::{AnyPaymentObserver, PaymentSubject, texts};
use crate::manajemen_pembayaran::repository::payment_repository::{
    is_listed, opt_filters, PaymentFilters,
};
use crate::manajemen_pembayaran::repository::payment_repository_impl::{
    has_id, has_transaction, payment_views, removed, replace_by_id, stored_under,
    unique_ids, unique_transactions, upsert, PaymentRepositoryImpl,
};

verus! {

/// Storing a payment of a transaction that has none keeps transactions unique.
pub proof fn lemma_upsert_keeps_unique_transactions(s: Seq<PaymentView>, p: PaymentView)
    requires
        unique_ids(s),
        unique_transactions(s),
        !has_transaction(s, p.transaction_id),
    ensures
        unique_transactions(upsert(s, p)),
{
    let s2 = upsert(s, p);
    assert forall|i: int, j: int|
        0 <= i < s2.len() && 0 <= j < s2.len() && i != j implies #[trigger] s2[i].transaction_id
        != #[trigger] s2[j].transaction_id by {
        if has_id(s, p.id) {
            if s[i].id == p.id && s[j].id == p.id {
                assert(s[i].id != s[j].id);
            } else if s[i].id == p.id {
                assert(s[j].transaction_id != p.transaction_id);
            } else if s[j].id == p.id {
                assert(s[i].transaction_id != p.transaction_id);
            }
        } else {
            if i < s.len() && j < s.len() {
            } else if i < s.len() {
                assert(s[i].transaction_id != p.transaction_id);
            } else {
                assert(s[j].transaction_id != p.transaction_id);
            }
        }
    }
}

/// Replacing a payment by one of the same transaction keeps transactions
/// unique.
pub proof fn lemma_replace_keeps_unique_transactions(s: Seq<PaymentView>, p: PaymentView)
    requires
        unique_ids(s),
        unique_transactions(s),
        has_id(s, p.id),
        stored(s, p.id).transaction_id == p.transaction_id,
    ensures
        unique_transactions(replace_by_id(s, p)),
{
    let s2 = replace_by_id(s, p);
    assert forall|i: int| 0 <= i < s.len() implies #[trigger] s2[i].transaction_id == s[i].transaction_id by {
        if s[i].id == p.id {
            lemma_stored_at(s, i);
        }
    }
    assert forall|i: int, j: int|
        0 <= i < s2.len() && 0 <= j < s2.len() && i != j implies #[trigger] s2[i].transaction_id
        != #[trigger] s2[j].transaction_id by {
        assert(s2[i].transaction_id == s[i].transaction_id);
        assert(s2[j].transaction_id == s[j].transaction_id);
    }
}

/// Taking a payment out keeps transactions unique.
pub proof fn lemma_remove_keeps_unique_transactions(s: Seq<PaymentView>, id: Seq<char>, s2: Seq<PaymentView>)
    requires
        unique_transactions(s),
        removed(s, id, s2),
    ensures
        unique_transactions(s2),
{
    let k = choose|k: int| 0 <= k < s.len() && #[trigger] s[k].id == id && s2 == s.remove(k);
    assert forall|i: int, j: int|
        0 <= i < s2.len() && 0 <= j < s2.len() && i != j implies #[trigger] s2[i].transaction_id
        != #[trigger] s2[j].transaction_id by {
        let i2 = if i < k { i } else { i + 1 };
        let j2 = if j < k { j } else { j + 1 };
        assert(s2[i] == s[i2]);
        assert(s2[j] == s[j2]);
    }
}

/// The payment service, holding its store and its observers.
pub struct PaymentServiceImpl {
    repository: PaymentRepositoryImpl,
    subject: PaymentSubject,
}

impl PaymentServiceImpl {
    /// The stored payments, in the order they were first stored.
    pub closed spec fn payments(&self) -> Seq<PaymentView> {
        self.repository@
    }

    /// The observers told about changes.
    pub closed spec fn observers(&self) -> Seq<AnyPaymentObserver> {
        self.subject.observers()
    }

    /// The notices recorded and not yet collected.
    pub closed spec fn delivered(&self) -> Seq<Seq<char>> {
        self.subject.delivered()
    }

    /// Stored identifiers are unique.
    pub open spec fn wf(&self) -> bool {
        unique_ids(self.payments())
    }

    pub fn new(repository: PaymentRepositoryImpl, subject: PaymentSubject) -> (s: Self)
        requires
            repository.wf(),
        ensures
            s.wf(),
            s.payments() == repository@,
            s.observers() == subject.observers(),
            s.delivered() == subject.delivered(),
    {
        PaymentServiceImpl { repository, subject }
    }

    /// Creates the settled payment of a transaction.
    pub fn create_payment(&mut self, transaction_id: String, amount: i64, method: PaymentMethod) -> (r: Result<Payment, String>)
        requires
            old(self).wf(),
        ensures
            final(self).wf(),
            final(self).observers() == old(self).observers(),
            create_outcome(
                old(self).payments(),
                old(self).delivered(),
                old(self).observers(),
                transaction_id@,
                amount as int,
                method,
                final(self).payments(),
                final(self).delivered(),
                r,
            ),
            unique_transactions(old(self).payments()) ==> unique_transactions(final(self).payments()),
    {
        let command = CreatePaymentCommand::new(transaction_id, amount, method);
        let r = command.execute(&mut self.repository, &mut self.subject);
        proof {
            if r is Ok && unique_transactions(old(self).payments()) {
                lemma_upsert_keeps_unique_transactions(old(self).payments(), r->Ok_0@);
            }
        }
        r
    }

    /// Puts a payment into `new_status`, recording an installment of
    /// `additional_amount` where one is given.
    pub fn update_payment_status(&mut self, payment_id: String, new_status: PaymentStatus, additional_amount: Option<i64>) -> (r: Result<Payment, String>)
        requires
            old(self).wf(),
        ensures
            final(self).wf(),
            final(self).observers() == old(self).observers(),
            update_status_outcome(
                old(self).payments(),
                old(self).delivered(),
                old(self).observers(),
                payment_id@,
                new_status,
                additional_amount,
                final(self).payments(),
                final(self).delivered(),
                r,
            ),
            unique_transactions(old(self).payments()) ==> unique_transactions(final(self).payments()),
    {
        let command = UpdatePaymentStatusCommand::new(payment_id, new_status, additional_amount);
        let r = command.execute(&mut self.repository, &mut self.subject);
        proof {
            if r is Ok && unique_transactions(old(self).payments()) {
                lemma_replace_keeps_unique_transactions(old(self).payments(), r->Ok_0@);
            }
        }
        r
    }

    /// Deletes a payment that is still being paid in installments.
    pub fn delete_payment(&mut self, payment_id: String) -> (r: Result<(), String>)
        requires
            old(self).wf(),
        ensures
            final(self).wf(),
            final(self).observers() == old(self).observers(),
            final(self).delivered() == old(self).delivered(),
            delete_outcome(old(self).payments(), payment_id@, final(self).payments(), r),
            unique_transactions(old(self).payments()) ==> unique_transactions(final(self).payments()),
    {
        let command = DeletePaymentCommand::new(payment_id);
        let r = command.execute(&mut self.repository);
        proof {
            if r is Ok && unique_transactions(old(self).payments()) {
                lemma_remove_keeps_unique_transactions(old(self).payments(), command.payment_id@, self.payments());
            }
        }
        r
    }

    /// A copy of the payment stored under `payment_id`, if any.
    pub fn get_payment(&self, payment_id: &str) -> (r: Option<Payment>)
        requires
            self.wf(),
        ensures
            r is Some <==> has_id(self.payments(), payment_id@),
            r matches Some(p) ==> p@ == stored(self.payments(), payment_id@),
    {
        let r = self.repository.find_by_id(payment_id);
        proof {
            if r is Some {
                lemma_found_is_stored(self.payments(), payment_id@, r->Some_0@);
            }
        }
        r
    }

    /// A copy of the first stored payment of transaction `transaction_id`,
    /// if any.
    pub fn get_payment_by_transaction(&self, transaction_id: &str) -> (r: Option<Payment>)
        ensures
            r is Some <==> has_transaction(self.payments(), transaction_id@),
            r matches Some(p) ==> exists|i: int|
                0 <= i < self.payments().len() && #[trigger] self.payments()[i] == p@
                    && p@.transaction_id == transaction_id@ && forall|j: int|
                    0 <= j < i ==> self.payments()[j].transaction_id != transaction_id@,
    {
        self.repository.find_by_transaction_id(transaction_id)
    }

    /// Copies of the stored payments that the filters list, in the order
    /// they are stored.
    pub fn get_all_payments(&self, filters: Option<PaymentFilters>) -> (r: Vec<Payment>)
        ensures
            payment_views(r@) == self.payments().filter(
                |p: PaymentView| is_listed(p, opt_filters(filters)),
            ),
    {
        self.repository.find_all(&filters)
    }

    /// Records an installment of `amount` towards payment `payment_id`, as
    /// its status allows; the payment becomes settled once its installments
    /// cover its amount.
    pub fn add_installment(&mut self, payment_id: &str, amount: i64) -> (r: Result<Payment, String>)
        requires
            old(self).wf(),
        ensures
            final(self).wf(),
            final(self).observers() == old(self).observers(),
            add_installment_outcome(
                old(self).payments(),
                old(self).delivered(),
                old(self).observers(),
                payment_id@,
                amount as int,
                final(self).payments(),
                final(self).delivered(),
                r,
            ),
            unique_transactions(old(self).payments()) ==> unique_transactions(final(self).payments()),
    {
        let command = AddInstallmentCommand::new(String::from_str(payment_id), amount);
        let r = command.execute(&mut self.repository, &mut self.subject);
        proof {
            if r is Ok && unique_transactions(old(self).payments()) {
                lemma_replace_keeps_unique_transactions(old(self).payments(), r->Ok_0@);
            }
        }
        r
    }

    /// Hands over the notices the observers recorded so far, oldest first.
    pub fn take_notifications(&mut self) -> (r: Vec<String>)
        requires
            old(self).wf(),
        ensures
            final(self).wf(),
            texts(r@) == old(self).delivered(),
            final(self).delivered() == Seq::<Seq<char>>::empty(),
            final(self).observers() == old(self).observers(),
            final(self).payments() == old(self).payments(),
    {
        self.subject.take_notifications()
    }
}

} // verus!
