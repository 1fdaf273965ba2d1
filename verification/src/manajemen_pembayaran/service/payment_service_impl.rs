//! The payment service over the in-memory store, making each change
//! directly.
use vstd::prelude::*;
use vstd::string::*;
use crate::clock::now_timestamp;
use crate::ident::{is_uuid_text, new_uuid_v4_string};
use crate::manajemen_pembayaran::enums::payment_status::PaymentStatus;
use crate::manajemen_pembayaran::main::service::payment_service_impl::{
    lemma_remove_keeps_unique_transactions, lemma_replace_keeps_unique_transactions,
    lemma_upsert_keeps_unique_transactions,
};
use crate::manajemen_pembayaran::model::payment::{
    installment_views, sum_installments, total_paid, Installment, InstallmentView, Payment,
    PaymentMethod, PaymentView,
};
use crate::manajemen_pembayaran::patterns::command::{
    duplicate_transaction_message, is_created_payment, lemma_found_is_stored, stored,
};
use crate::manajemen_pembayaran::patterns::state::non_positive_installment_message;
use crate::manajemen_pembayaran::patterns::strategy::{is_prefixed_uuid, payment_id_prefix, prefixed_uuid};
use crate::manajemen_pembayaran::repository::payment_repository::{is_listed, opt_filters, PaymentFilters};
use crate::manajemen_pembayaran::repository::payment_repository_impl::{
    has_id, has_transaction, not_found_message, not_found_text, payment_views, removed,
    replace_by_id, unique_ids, unique_transactions, upsert, PaymentRepositoryImpl,
};

verus! {

/// The message an amount that is not positive is refused with.
pub open spec fn non_positive_amount_message() -> Seq<char> {
    "Jumlah pembayaran harus lebih dari 0"@
}

/// The message an additional amount that is not positive is refused with.
pub open spec fn non_positive_additional_message() -> Seq<char> {
    "Jumlah tambahan harus lebih dari 0"@
}

/// The message a settled payment's deletion is refused with.
pub open spec fn settled_message(id: Seq<char>) -> Seq<char> {
    "Pembayaran dengan ID "@ + id + " sudah lunas dan tidak dapat dihapus"@
}

/// The message an installment towards a payment in another status is
/// refused with.
pub open spec fn not_installment_message(id: Seq<char>) -> Seq<char> {
    "Pembayaran dengan ID "@ + id + " bukan cicilan"@
}

/// `p` is `q` with nothing changed but, possibly, its status, its amount
/// and its installments.
pub open spec fn same_payment(q: PaymentView, p: PaymentView) -> bool {
    &&& p.id == q.id
    &&& p.transaction_id == q.transaction_id
    &&& p.method == q.method
    &&& p.payment_date == q.payment_date
    &&& p.due_date == q.due_date
}

/// `p.installments` is `q.installments` with one installment of `amount`
/// towards `id` after them, identified by a fresh UUID.
pub open spec fn installment_recorded(q: PaymentView, p: PaymentView, id: Seq<char>, amount: int) -> bool {
    &&& p.installments.len() == q.installments.len() + 1
    &&& p.installments.drop_last() == q.installments
    &&& p.installments.last().payment_id == id
    &&& p.installments.last().amount == amount
    &&& is_uuid_text(p.installments.last().id)
}

/// What creating the payment of transaction `tx` does to the store `s`.
pub open spec fn create_outcome(
    s: Seq<PaymentView>,
    tx: Seq<char>,
    amount: int,
    method: PaymentMethod,
    s2: Seq<PaymentView>,
    r: Result<Payment, String>,
) -> bool {
    if has_transaction(s, tx) {
        &&& r matches Err(msg) && msg@ == duplicate_transaction_message(tx)
        &&& s2 == s
    } else if amount <= 0 {
        &&& r matches Err(msg) && msg@ == non_positive_amount_message()
        &&& s2 == s
    } else {
        &&& r matches Ok(p) && is_created_payment(p@, tx, amount, method)
        &&& s2 == upsert(s, r->Ok_0@)
    }
}

/// `p` is `q` put into `status`; an additional amount is added to the
/// amount, and recorded as an installment where the new status is
/// `Installment`.
pub open spec fn status_changed(q: PaymentView, p: PaymentView, id: Seq<char>, status: PaymentStatus, additional: Option<i64>) -> bool {
    match additional {
        None => p == PaymentView { status, ..q },
        Some(a) => {
            &&& same_payment(q, p)
            &&& p.status == status
            &&& p.amount == q.amount + a
            &&& if status == PaymentStatus::Installment {
                installment_recorded(q, p, id, a as int)
            } else {
                p.installments == q.installments
            }
        },
    }
}

/// What changing the status of payment `id` does to the store `s`.
pub open spec fn update_status_outcome(
    s: Seq<PaymentView>,
    id: Seq<char>,
    status: PaymentStatus,
    additional: Option<i64>,
    s2: Seq<PaymentView>,
    r: Result<Payment, String>,
) -> bool {
    if !has_id(s, id) {
        &&& r matches Err(msg) && msg@ == not_found_message(id)
        &&& s2 == s
    } else if additional matches Some(a) && a <= 0 {
        &&& r matches Err(msg) && msg@ == non_positive_additional_message()
        &&& s2 == s
    } else {
        &&& r matches Ok(p) && status_changed(stored(s, id), p@, id, status, additional)
        &&& s2 == replace_by_id(s, r->Ok_0@)
    }
}

/// What deleting payment `id` does to the store `s`.
pub open spec fn delete_outcome(s: Seq<PaymentView>, id: Seq<char>, s2: Seq<PaymentView>, r: Result<(), String>) -> bool {
    if !has_id(s, id) {
        &&& r matches Err(msg) && msg@ == not_found_message(id)
        &&& s2 == s
    } else if stored(s, id).status == PaymentStatus::Paid {
        &&& r matches Err(msg) && msg@ == settled_message(id)
        &&& s2 == s
    } else {
        &&& r is Ok
        &&& removed(s, id, s2)
    }
}

/// What recording an installment of `amount` towards payment `id` does to
/// the store `s`: the payment is settled once its installments cover its
/// amount.
pub open spec fn add_installment_outcome(
    s: Seq<PaymentView>,
    id: Seq<char>,
    amount: int,
    s2: Seq<PaymentView>,
    r: Result<Payment, String>,
) -> bool {
    let q = stored(s, id);
    if amount <= 0 {
        &&& r matches Err(msg) && msg@ == non_positive_installment_message()
        &&& s2 == s
    } else if !has_id(s, id) {
        &&& r matches Err(msg) && msg@ == not_found_message(id)
        &&& s2 == s
    } else if q.status != PaymentStatus::Installment {
        &&& r matches Err(msg) && msg@ == not_installment_message(id)
        &&& s2 == s
    } else {
        &&& r matches Ok(p) && {
            &&& same_payment(q, p@)
            &&& p@.amount == q.amount
            &&& installment_recorded(q, p@, id, amount)
            &&& p@.status == if total_paid(p@.installments) >= q.amount {
                PaymentStatus::Paid
            } else {
                q.status
            }
        }
        &&& s2 == replace_by_id(s, r->Ok_0@)
    }
}

/// The payment service, holding its store.
pub struct PaymentServiceImpl {
    repository: PaymentRepositoryImpl,
}

impl PaymentServiceImpl {
    /// The stored payments, in the order they were first stored.
    pub closed spec fn payments(&self) -> Seq<PaymentView> {
        self.repository@
    }

    /// Stored identifiers are unique.
    pub open spec fn wf(&self) -> bool {
        unique_ids(self.payments())
    }

    pub fn new(repository: PaymentRepositoryImpl) -> (s: Self)
        requires
            repository.wf(),
        ensures
            s.wf(),
            s.payments() == repository@,
    {
        PaymentServiceImpl { repository }
    }

    /// A fresh identifier for a payment of a positive amount by `method`:
    /// the method's prefix followed by a UUID.
    fn process_payment(amount: i64, method: PaymentMethod) -> (r: Result<String, String>)
        ensures
            amount <= 0 ==> (r matches Err(msg) && msg@ == non_positive_amount_message()),
            amount > 0 ==> (r matches Ok(id) && is_prefixed_uuid(payment_id_prefix(method), id@)),
    {
        if amount <= 0 {
            return Err(String::from_str("Jumlah pembayaran harus lebih dari 0"));
        }
        let prefix = match method {
            PaymentMethod::Cash => "CASH-",
            PaymentMethod::CreditCard => "CC-",
            PaymentMethod::BankTransfer => "BANK-",
            PaymentMethod::EWallet => "EWALLET-",
        };
        Ok(prefixed_uuid(prefix))
    }

    /// Creates the settled payment of a transaction that has none.
    pub fn create_payment(&mut self, transaction_id: String, amount: i64, method: PaymentMethod) -> (r: Result<Payment, String>)
        requires
            old(self).wf(),
        ensures
            final(self).wf(),
            create_outcome(old(self).payments(), transaction_id@, amount as int, method, final(self).payments(), r),
            unique_transactions(old(self).payments()) ==> unique_transactions(final(self).payments()),
    {
        if self.repository.find_by_transaction_id(transaction_id.as_str()).is_some() {
            return Err(
                String::from_str("Transaksi ").concat(transaction_id.as_str()).concat(
                    " sudah memiliki pembayaran",
                ),
            );
        }
        let payment_id = match Self::process_payment(amount, method) {
            Ok(id) => id,
            Err(e) => {
                return Err(e);
            },
        };
        let payment = Payment {
            id: payment_id,
            transaction_id,
            amount,
            method,
            status: PaymentStatus::Paid,
            payment_date: now_timestamp(),
            installments: Vec::new(),
            due_date: None,
        };
        assert(payment@.installments =~= Seq::<InstallmentView>::empty());
        let r = self.repository.save(payment);
        proof {
            if unique_transactions(old(self).payments()) {
                lemma_upsert_keeps_unique_transactions(old(self).payments(), r->Ok_0@);
            }
        }
        r
    }

    /// Puts a payment into `new_status`; a positive additional amount is
    /// added to the payment's amount, and recorded as an installment where
    /// the new status is `Installment`.
    pub fn update_payment_status(&mut self, payment_id: String, new_status: PaymentStatus, additional_amount: Option<i64>) -> (r: Result<Payment, String>)
        requires
            old(self).wf(),
            additional_amount matches Some(a) ==> (a > 0 && has_id(old(self).payments(), payment_id@)
                ==> stored(old(self).payments(), payment_id@).amount + a <= i64::MAX),
        ensures
            final(self).wf(),
            update_status_outcome(old(self).payments(), payment_id@, new_status, additional_amount, final(self).payments(), r),
            unique_transactions(old(self).payments()) ==> unique_transactions(final(self).payments()),
    {
        let mut payment = match self.repository.find_by_id(payment_id.as_str()) {
            Some(p) => p,
            None => {
                return Err(not_found_text(payment_id.as_str()));
            },
        };
        proof {
            lemma_found_is_stored(self.payments(), payment_id@, payment@);
        }
        let ghost found = payment@;
        payment.status = new_status;
        match additional_amount {
            Some(additional) => {
                if additional <= 0 {
                    return Err(String::from_str("Jumlah tambahan harus lebih dari 0"));
                }
                payment.amount = payment.amount + additional;
                if new_status == PaymentStatus::Installment {
                    let installment = Installment {
                        id: new_uuid_v4_string(),
                        payment_id: payment_id.clone(),
                        amount: additional,
                        payment_date: now_timestamp(),
                    };
                    let ghost before = payment.installments@;
                    payment.installments.push(installment);
                    assert(installment_views(payment.installments@).drop_last() =~= installment_views(before));
                }
            },
            None => {},
        }
        let r = self.repository.update(payment);
        proof {
            if unique_transactions(old(self).payments()) {
                lemma_replace_keeps_unique_transactions(old(self).payments(), r->Ok_0@);
            }
        }
        r
    }

    /// Deletes a payment that is not settled.
    pub fn delete_payment(&mut self, payment_id: String) -> (r: Result<(), String>)
        requires
            old(self).wf(),
        ensures
            final(self).wf(),
            delete_outcome(old(self).payments(), payment_id@, final(self).payments(), r),
            unique_transactions(old(self).payments()) ==> unique_transactions(final(self).payments()),
    {
        let payment = match self.repository.find_by_id(payment_id.as_str()) {
            Some(p) => p,
            None => {
                return Err(not_found_text(payment_id.as_str()));
            },
        };
        proof {
            lemma_found_is_stored(self.payments(), payment_id@, payment@);
        }
        if payment.status == PaymentStatus::Paid {
            return Err(
                String::from_str("Pembayaran dengan ID ").concat(payment_id.as_str()).concat(
                    " sudah lunas dan tidak dapat dihapus",
                ),
            );
        }
        let r = self.repository.delete(payment_id.as_str());
        proof {
            if unique_transactions(old(self).payments()) {
                lemma_remove_keeps_unique_transactions(old(self).payments(), payment_id@, self.payments());
            }
        }
        r
    }

    /// A copy of the payment stored under `payment_id`, if any.
    pub fn get_payment(&self, payment_id: &str) -> (r: Option<Payment>)
        requires
            self.wf(),
        ensures
            r is Some <==> has_id(self.payments(), payment_id@),
            r matches Some(p) ==> p@ == stored(self.payments(), payment_id@),
    {
        let r = self.repository.find_by_id(payment_id);
        proof {
            if r is Some {
                lemma_found_is_stored(self.payments(), payment_id@, r->Some_0@);
            }
        }
        r
    }

    /// A copy of the first stored payment of transaction `transaction_id`,
    /// if any.
    pub fn get_payment_by_transaction(&self, transaction_id: &str) -> (r: Option<Payment>)
        ensures
            r is Some <==> has_transaction(self.payments(), transaction_id@),
            r matches Some(p) ==> exists|i: int|
                0 <= i < self.payments().len() && #[trigger] self.payments()[i] == p@
                    && p@.transaction_id == transaction_id@ && forall|j: int|
                    0 <= j < i ==> self.payments()[j].transaction_id != transaction_id@,
    {
        self.repository.find_by_transaction_id(transaction_id)
    }

    /// Copies of the stored payments that the filters list, in the order
    /// they are stored.
    pub fn get_all_payments(&self, filters: Option<PaymentFilters>) -> (r: Vec<Payment>)
        ensures
            payment_views(r@) == self.payments().filter(
                |p: PaymentView| is_listed(p, opt_filters(filters)),
            ),
    {
        self.repository.find_all(&filters)
    }

    /// Records an installment of `amount` towards a payment being paid in
    /// installments; the payment is settled once its installments cover its
    /// amount.
    pub fn add_installment(&mut self, payment_id: &str, amount: i64) -> (r: Result<Payment, String>)
        requires
            old(self).wf(),
        ensures
            final(self).wf(),
            add_installment_outcome(old(self).payments(), payment_id@, amount as int, final(self).payments(), r),
            unique_transactions(old(self).payments()) ==> unique_transactions(final(self).payments()),
    {
        if amount <= 0 {
            return Err(String::from_str("Jumlah cicilan harus lebih dari 0"));
        }
        let mut payment = match self.repository.find_by_id(payment_id) {
            Some(p) => p,
            None => {
                return Err(not_found_text(payment_id));
            },
        };
        proof {
            lemma_found_is_stored(self.payments(), payment_id@, payment@);
        }
        if payment.status != PaymentStatus::Installment {
            return Err(
                String::from_str("Pembayaran dengan ID ").concat(payment_id).concat(" bukan cicilan"),
            );
        }
        let installment = Installment {
            id: new_uuid_v4_string(),
            payment_id: String::from_str(payment_id),
            amount,
            payment_date: now_timestamp(),
        };
        let ghost before = payment.installments@;
        payment.installments.push(installment);
        assert(installment_views(payment.installments@).drop_last() =~= installment_views(before));
        let total = sum_installments(&payment.installments);
        if total >= payment.amount as i128 {
            payment.status = PaymentStatus::Paid;
        }
        let r = self.repository.update(payment);
        proof {
            if unique_transactions(old(self).payments()) {
                lemma_replace_keeps_unique_transactions(old(self).payments(), r->Ok_0@);
            }
        }
        r
    }
}

} // verus!
