//! The operations on payments, each as a command object that runs against a
//! store and tells the observers about what it changed.
use vstd::prelude::*;
use vstd::string::*;
use crate::clock::now_timestamp;
use crate::manajemen_pembayaran::enums::payment_status::{status_code, PaymentStatus};
use crate::manajemen_pembayaran::model::payment::{
    total_paid, Installment, InstallmentView, Payment, PaymentMethod, PaymentView,
};
use crate::manajemen_pembayaran::patterns::factory::{PaymentProcessorFactory, PaymentStateFactory};
use crate::manajemen_pembayaran::patterns::observer::{notices, PaymentSubject};
use crate::manajemen_pembayaran::patterns::state::{
    installment_appended, non_positive_installment_message, already_paid_message,
    status_after_installment, PaymentState,
};
use crate::manajemen_pembayaran::patterns::strategy::{
    is_prefixed_uuid, payment_id_prefix, prefixed_uuid, processor_error, PaymentProcessor,
};
use crate::manajemen_pembayaran::repository::payment_repository_impl::{
    has_id, has_transaction, lemma_read_after_delete, lemma_read_after_save, lemma_read_after_update,
    lemma_upsert_keeps_unique_ids, not_found_message, not_found_text, removed, replace_by_id,
    stored_under, unique_ids, upsert, PaymentRepositoryImpl,
};

verus! {

/// The payment stored under `id` (meaningful where one is stored).
pub open spec fn stored(s: Seq<PaymentView>, id: Seq<char>) -> PaymentView {
    s[choose|i: int| 0 <= i < s.len() && #[trigger] s[i].id == id]
}

/// With unique identifiers, the payment found at position `i` is the one
/// stored under its identifier.
pub proof fn lemma_stored_at(s: Seq<PaymentView>, i: int)
    requires
        unique_ids(s),
        0 <= i < s.len(),
    ensures
        stored(s, s[i].id) == s[i],
        has_id(s, s[i].id),
{
    let id = s[i].id;
    assert(s[i].id == id);
    let j = choose|j: int| 0 <= j < s.len() && #[trigger] s[j].id == id;
    assert(s[j].id == id);
    if j != i {
        assert(s[i].id != s[j].id);
    }
}

/// With unique identifiers, a payment found under `id` is the one stored
/// there.
pub proof fn lemma_found_is_stored(s: Seq<PaymentView>, id: Seq<char>, p: PaymentView)
    requires
        unique_ids(s),
        stored_under(s, id, p),
    ensures
        has_id(s, id),
        stored(s, id) == p,
{
    let i = choose|i: int| 0 <= i < s.len() && #[trigger] s[i] == p && p.id == id;
    lemma_stored_at(s, i);
}

/// The message a second payment for a transaction is refused with.
pub open spec fn duplicate_transaction_message(tx: Seq<char>) -> Seq<char> {
    "Transaksi "@ + tx + " sudah memiliki pembayaran"@
}

/// The message a settled payment's deletion is refused with.
pub open spec fn cannot_delete_message(status: PaymentStatus) -> Seq<char> {
    "Tidak dapat menghapus pembayaran dengan status "@ + status_code(status)
}

/// `p` is a payment just made for transaction `tx`.
pub open spec fn is_created_payment(p: PaymentView, tx: Seq<char>, amount: int, method: PaymentMethod) -> bool {
    &&& is_prefixed_uuid(payment_id_prefix(method), p.id)
    &&& p.transaction_id == tx
    &&& p.amount == amount
    &&& p.method == method
    &&& p.status == PaymentStatus::Paid
    &&& p.installments.len() == 0
    &&& p.due_date is None
}

/// What creating a payment does, from the store `s` and the notices `d`
/// before to `s2` and `d2` after, with observers `obs`.
pub open spec fn create_outcome(
    s: Seq<PaymentView>,
    d: Seq<Seq<char>>,
    obs: Seq<crate::manajemen_pembayaran::patterns::observer::AnyPaymentObserver>,
    tx: Seq<char>,
    amount: int,
    method: PaymentMethod,
    s2: Seq<PaymentView>,
    d2: Seq<Seq<char>>,
    r: Result<Payment, String>,
) -> bool {
    if has_transaction(s, tx) {
        &&& r matches Err(msg) && msg@ == duplicate_transaction_message(tx)
        &&& s2 == s && d2 == d
    } else if amount <= 0 {
        &&& r matches Err(msg) && msg@ == processor_error(method)
        &&& s2 == s && d2 == d
    } else {
        &&& r matches Ok(p) && is_created_payment(p@, tx, amount, method)
        &&& s2 == upsert(s, r->Ok_0@)
        &&& d2 == d + notices(obs, r->Ok_0@)
    }
}

/// `p` is `q` put into status `status`, with an installment of `additional`
/// recorded where one is given.
pub open spec fn status_updated(q: PaymentView, p: PaymentView, status: PaymentStatus, additional: Option<i64>) -> bool {
    &&& p.status == status
    &&& match additional {
        None => p == PaymentView { status, ..q },
        Some(a) => installment_appended(q, p, a as int),
    }
}

/// What changing the status of payment `id` does.
pub open spec fn update_status_outcome(
    s: Seq<PaymentView>,
    d: Seq<Seq<char>>,
    obs: Seq<crate::manajemen_pembayaran::patterns::observer::AnyPaymentObserver>,
    id: Seq<char>,
    status: PaymentStatus,
    additional: Option<i64>,
    s2: Seq<PaymentView>,
    d2: Seq<Seq<char>>,
    r: Result<Payment, String>,
) -> bool {
    if !has_id(s, id) {
        &&& r matches Err(msg) && msg@ == not_found_message(id)
        &&& s2 == s && d2 == d
    } else if additional matches Some(a) && a <= 0 {
        &&& r matches Err(msg) && msg@ == non_positive_installment_message()
        &&& s2 == s && d2 == d
    } else {
        &&& r matches Ok(p) && status_updated(stored(s, id), p@, status, additional)
        &&& s2 == replace_by_id(s, r->Ok_0@)
        &&& d2 == d + notices(obs, r->Ok_0@)
    }
}

/// What recording an installment of `amount` towards payment `id` does.
pub open spec fn add_installment_outcome(
    s: Seq<PaymentView>,
    d: Seq<Seq<char>>,
    obs: Seq<crate::manajemen_pembayaran::patterns::observer::AnyPaymentObserver>,
    id: Seq<char>,
    amount: int,
    s2: Seq<PaymentView>,
    d2: Seq<Seq<char>>,
    r: Result<Payment, String>,
) -> bool {
    let q = stored(s, id);
    if !has_id(s, id) {
        &&& r matches Err(msg) && msg@ == not_found_message(id)
        &&& s2 == s && d2 == d
    } else if q.status == PaymentStatus::Paid {
        &&& r matches Err(msg) && msg@ == already_paid_message()
        &&& s2 == s && d2 == d
    } else if amount <= 0 {
        &&& r matches Err(msg) && msg@ == non_positive_installment_message()
        &&& s2 == s && d2 == d
    } else {
        &&& r matches Ok(p) && installment_appended(q, p@, amount)
        &&& r->Ok_0@.status == status_after_installment(q.status, r->Ok_0@.installments, q.amount)
        &&& s2 == replace_by_id(s, r->Ok_0@)
        &&& d2 == d + notices(obs, r->Ok_0@)
    }
}

/// What deleting payment `id` does.
pub open spec fn delete_outcome(s: Seq<PaymentView>, id: Seq<char>, s2: Seq<PaymentView>, r: Result<(), String>) -> bool {
    if !has_id(s, id) {
        &&& r matches Err(msg) && msg@ == not_found_message(id)
        &&& s2 == s
    } else if stored(s, id).status == PaymentStatus::Paid {
        &&& r matches Err(msg) && msg@ == cannot_delete_message(PaymentStatus::Paid)
        &&& s2 == s
    } else {
        &&& r is Ok
        &&& removed(s, id, s2)
    }
}

/// A payment just created is stored under its identifier and found under
/// its transaction.
pub proof fn lemma_created_payment_is_stored(
    s: Seq<PaymentView>,
    d: Seq<Seq<char>>,
    obs: Seq<crate::manajemen_pembayaran::patterns::observer::AnyPaymentObserver>,
    tx: Seq<char>,
    amount: int,
    method: PaymentMethod,
    s2: Seq<PaymentView>,
    d2: Seq<Seq<char>>,
    r: Result<Payment, String>,
)
    requires
        unique_ids(s),
        create_outcome(s, d, obs, tx, amount, method, s2, d2, r),
        r is Ok,
    ensures
        has_id(s2, r->Ok_0@.id),
        stored(s2, r->Ok_0@.id) == r->Ok_0@,
        has_transaction(s2, tx),
{
    let p = r->Ok_0@;
    lemma_upsert_keeps_unique_ids(s, p);
    lemma_read_after_save(s, p, stored(s2, p.id));
    let i = choose|i: int| 0 <= i < s2.len() && #[trigger] s2[i].id == p.id;
    lemma_stored_at(s2, i);
    assert(s2[i] == stored(s2, p.id));
    assert(stored_under(s2, p.id, s2[i]));
    assert(s2[i].transaction_id == tx);
}

/// A status change is what is read back under the payment's identifier.
pub proof fn lemma_status_update_is_stored(
    s: Seq<PaymentView>,
    d: Seq<Seq<char>>,
    obs: Seq<crate::manajemen_pembayaran::patterns::observer::AnyPaymentObserver>,
    id: Seq<char>,
    status: PaymentStatus,
    additional: Option<i64>,
    s2: Seq<PaymentView>,
    d2: Seq<Seq<char>>,
    r: Result<Payment, String>,
)
    requires
        unique_ids(s),
        update_status_outcome(s, d, obs, id, status, additional, s2, d2, r),
        r is Ok,
    ensures
        r->Ok_0@.status == status,
        r->Ok_0@.id == id,
        has_id(s2, id),
        stored(s2, id) == r->Ok_0@,
{
    let p = r->Ok_0@;
    let q = stored(s, id);
    let k = choose|k: int| 0 <= k < s.len() && #[trigger] s[k].id == id;
    lemma_stored_at(s, k);
    assert(p.id == q.id);
    lemma_read_after_update(s, p, stored(s2, id));
    lemma_upsert_keeps_unique_ids(s, p);
    let i = choose|i: int| 0 <= i < s2.len() && #[trigger] s2[i].id == id;
    lemma_stored_at(s2, i);
    assert(stored_under(s2, id, s2[i]));
}

/// A transaction gets one payment: once one is created for it, creating
/// another is refused and changes nothing.
pub proof fn lemma_second_payment_refused(
    s: Seq<PaymentView>,
    d: Seq<Seq<char>>,
    obs: Seq<crate::manajemen_pembayaran::patterns::observer::AnyPaymentObserver>,
    tx: Seq<char>,
    amount: int,
    method: PaymentMethod,
    s2: Seq<PaymentView>,
    d2: Seq<Seq<char>>,
    r: Result<Payment, String>,
    amount2: int,
    method2: PaymentMethod,
    s3: Seq<PaymentView>,
    d3: Seq<Seq<char>>,
    r2: Result<Payment, String>,
)
    requires
        unique_ids(s),
        create_outcome(s, d, obs, tx, amount, method, s2, d2, r),
        r is Ok,
        create_outcome(s2, d2, obs, tx, amount2, method2, s3, d3, r2),
    ensures
        r2 matches Err(msg) && msg@ == duplicate_transaction_message(tx),
        s3 == s2,
        d3 == d2,
{
    lemma_created_payment_is_stored(s, d, obs, tx, amount, method, s2, d2, r);
}

/// The sum of installments grows by each one recorded.
pub proof fn lemma_total_paid_push(s: Seq<InstallmentView>, i: InstallmentView)
    ensures
        total_paid(s.push(i)) == total_paid(s) + i.amount,
{
    assert(s.push(i).drop_last() =~= s);
}

/// An installment is recorded only on a payment still being paid in
/// installments; it adds its amount to what was paid, and the payment is
/// settled exactly when what was paid covers its amount.
pub proof fn lemma_installment_settles(
    s: Seq<PaymentView>,
    d: Seq<Seq<char>>,
    obs: Seq<crate::manajemen_pembayaran::patterns::observer::AnyPaymentObserver>,
    id: Seq<char>,
    amount: int,
    s2: Seq<PaymentView>,
    d2: Seq<Seq<char>>,
    r: Result<Payment, String>,
)
    requires
        unique_ids(s),
        add_installment_outcome(s, d, obs, id, amount, s2, d2, r),
        r is Ok,
    ensures
        stored(s, id).status == PaymentStatus::Installment,
        amount > 0,
        total_paid(r->Ok_0@.installments) == total_paid(stored(s, id).installments) + amount,
        (r->Ok_0@.status == PaymentStatus::Paid) == (total_paid(r->Ok_0@.installments) >= r->Ok_0@.amount),
        has_id(s2, id),
        stored(s2, id) == r->Ok_0@,
{
    let q = stored(s, id);
    let p = r->Ok_0@;
    assert(p.installments =~= q.installments.push(p.installments.last()));
    lemma_total_paid_push(q.installments, p.installments.last());
    lemma_read_after_update(s, p, stored(s2, id));
    let i = choose|i: int| 0 <= i < s2.len() && #[trigger] s2[i].id == id;
    lemma_upsert_keeps_unique_ids(s, p);
    lemma_stored_at(s2, i);
    assert(stored_under(s2, id, s2[i]));
}

/// A settled payment is final: it takes no installment and cannot be
/// deleted, and either attempt leaves the store as it was.
pub proof fn lemma_settled_payment_is_final(
    s: Seq<PaymentView>,
    d: Seq<Seq<char>>,
    obs: Seq<crate::manajemen_pembayaran::patterns::observer::AnyPaymentObserver>,
    id: Seq<char>,
    amount: int,
    s2: Seq<PaymentView>,
    d2: Seq<Seq<char>>,
    r: Result<Payment, String>,
    s3: Seq<PaymentView>,
    r3: Result<(), String>,
)
    requires
        has_id(s, id),
        stored(s, id).status == PaymentStatus::Paid,
        add_installment_outcome(s, d, obs, id, amount, s2, d2, r),
        delete_outcome(s, id, s3, r3),
    ensures
        r matches Err(msg) && msg@ == already_paid_message(),
        s2 == s,
        d2 == d,
        r3 matches Err(msg) && msg@ == cannot_delete_message(PaymentStatus::Paid),
        s3 == s,
{
}

/// Only a payment still being paid in installments is deleted, and once
/// deleted it is no longer found; the other payments stay.
pub proof fn lemma_deleted_payment_is_gone(s: Seq<PaymentView>, id: Seq<char>, s2: Seq<PaymentView>, r: Result<(), String>, other: Seq<char>)
    requires
        unique_ids(s),
        delete_outcome(s, id, s2, r),
        r is Ok,
        other != id,
    ensures
        stored(s, id).status == PaymentStatus::Installment,
        !has_id(s2, id),
        has_id(s2, other) == has_id(s, other),
{
    lemma_read_after_delete(s, id, s2, other);
}

/// A payment operation that runs against a store and tells the observers
/// about the payment it changed.
pub trait PaymentCommand {
    /// What running the command does, from the store `s` and the notices
    /// `d` before to `s2` and `d2` after, with observers `obs`.
    spec fn outcome(
        &self,
        s: Seq<PaymentView>,
        d: Seq<Seq<char>>,
        obs: Seq<crate::manajemen_pembayaran::patterns::observer::AnyPaymentObserver>,
        s2: Seq<PaymentView>,
        d2: Seq<Seq<char>>,
        r: Result<Payment, String>,
    ) -> bool;

    /// Runs the command.
    fn execute(&self, repository: &mut PaymentRepositoryImpl, subject: &mut PaymentSubject) -> (r: Result<Payment, String>)
        requires
            old(repository).wf(),
        ensures
            final(repository).wf(),
            final(subject).observers() == old(subject).observers(),
            self.outcome(
                old(repository)@,
                old(subject).delivered(),
                old(subject).observers(),
                final(repository)@,
                final(subject).delivered(),
                r,
            ),
    ;
}

/// Creates the payment of a transaction.
pub struct CreatePaymentCommand {
    pub transaction_id: String,
    pub amount: i64,
    pub method: PaymentMethod,
}

impl CreatePaymentCommand {
    pub fn new(transaction_id: String, amount: i64, method: PaymentMethod) -> (c: Self)
        ensures
            c.transaction_id == transaction_id,
            c.amount == amount,
            c.method == method,
    {
        CreatePaymentCommand { transaction_id, amount, method }
    }

    /// Refuses a transaction that already has a payment, lets the method's
    /// processor accept the amount, stores the settled payment and tells the
    /// observers; the payment is dated `now`.
    pub fn execute_at(&self, repository: &mut PaymentRepositoryImpl, subject: &mut PaymentSubject, now: i64) -> (r: Result<Payment, String>)
        requires
            old(repository).wf(),
        ensures
            final(repository).wf(),
            final(subject).observers() == old(subject).observers(),
            create_outcome(
                old(repository)@,
                old(subject).delivered(),
                old(subject).observers(),
                self.transaction_id@,
                self.amount as int,
                self.method,
                final(repository)@,
                final(subject).delivered(),
                r,
            ),
            r matches Ok(p) ==> p@.payment_date == now,
    {
        if repository.find_by_transaction_id(self.transaction_id.as_str()).is_some() {
            return Err(
                String::from_str("Transaksi ").concat(self.transaction_id.as_str()).concat(
                    " sudah memiliki pembayaran",
                ),
            );
        }
        let processor = PaymentProcessorFactory::create(self.method);
        let payment_id = match processor.process(self.amount, self.transaction_id.as_str()) {
            Ok(id) => id,
            Err(e) => {
                return Err(e);
            },
        };
        let payment = Payment {
            id: payment_id,
            transaction_id: self.transaction_id.clone(),
            amount: self.amount,
            method: processor.get_method(),
            status: PaymentStatus::Paid,
            payment_date: now,
            installments: Vec::new(),
            due_date: None,
        };
        assert(payment@.installments =~= Seq::empty());
        let saved = match repository.save(payment) {
            Ok(p) => p,
            Err(e) => {
                return Err(e);
            },
        };
        subject.notify(&saved);
        Ok(saved)
    }

}

impl PaymentCommand for CreatePaymentCommand {
    open spec fn outcome(
        &self,
        s: Seq<PaymentView>,
        d: Seq<Seq<char>>,
        obs: Seq<crate::manajemen_pembayaran::patterns::observer::AnyPaymentObserver>,
        s2: Seq<PaymentView>,
        d2: Seq<Seq<char>>,
        r: Result<Payment, String>,
    ) -> bool {
        create_outcome(s, d, obs, self.transaction_id@, self.amount as int, self.method, s2, d2, r)
    }

    /// Refuses a transaction that already has a payment, lets the method's
    /// processor accept the amount, stores the settled payment and tells the
    /// observers.
    fn execute(&self, repository: &mut PaymentRepositoryImpl, subject: &mut PaymentSubject) -> (r: Result<Payment, String>)
    {
        self.execute_at(repository, subject, now_timestamp())
    }
}

/// Puts a payment into a status, recording an installment where an amount
/// is given.
pub struct UpdatePaymentStatusCommand {
    pub payment_id: String,
    pub new_status: PaymentStatus,
    pub additional_amount: Option<i64>,
}

impl UpdatePaymentStatusCommand {
    pub fn new(payment_id: String, new_status: PaymentStatus, additional_amount: Option<i64>) -> (c: Self)
        ensures
            c.payment_id == payment_id,
            c.new_status == new_status,
            c.additional_amount == additional_amount,
    {
        UpdatePaymentStatusCommand { payment_id, new_status, additional_amount }
    }

}

impl PaymentCommand for UpdatePaymentStatusCommand {
    open spec fn outcome(
        &self,
        s: Seq<PaymentView>,
        d: Seq<Seq<char>>,
        obs: Seq<crate::manajemen_pembayaran::patterns::observer::AnyPaymentObserver>,
        s2: Seq<PaymentView>,
        d2: Seq<Seq<char>>,
        r: Result<Payment, String>,
    ) -> bool {
        update_status_outcome(s, d, obs, self.payment_id@, self.new_status, self.additional_amount, s2, d2, r)
    }

    fn execute(&self, repository: &mut PaymentRepositoryImpl, subject: &mut PaymentSubject) -> (r: Result<Payment, String>)
    {
        let mut payment = match repository.find_by_id(self.payment_id.as_str()) {
            Some(p) => p,
            None => {
                return Err(not_found_text(self.payment_id.as_str()));
            },
        };
        proof {
            lemma_found_is_stored(repository@, self.payment_id@, payment@);
        }
        let ghost found = payment@;
        payment.status = self.new_status;
        match self.additional_amount {
            Some(amount) => {
                if amount <= 0 {
                    return Err(String::from_str("Jumlah cicilan harus lebih dari 0"));
                }
                let installment = Installment {
                    id: prefixed_uuid("INST-"),
                    payment_id: payment.id.clone(),
                    amount,
                    payment_date: now_timestamp(),
                };
                let ghost before = payment.installments@;
                payment.installments.push(installment);
                proof {
                    assert(crate::manajemen_pembayaran::model::payment::installment_views(payment.installments@).drop_last()
                        =~= crate::manajemen_pembayaran::model::payment::installment_views(before));
                }
            },
            None => {},
        }
        let updated = match repository.update(payment) {
            Ok(p) => p,
            Err(e) => {
                return Err(e);
            },
        };
        subject.notify(&updated);
        Ok(updated)
    }
}

/// Records an installment towards a payment, as its status allows.
pub struct AddInstallmentCommand {
    pub payment_id: String,
    pub amount: i64,
}

impl AddInstallmentCommand {
    pub fn new(payment_id: String, amount: i64) -> (c: Self)
        ensures
            c.payment_id == payment_id,
            c.amount == amount,
    {
        AddInstallmentCommand { payment_id, amount }
    }

}

impl PaymentCommand for AddInstallmentCommand {
    open spec fn outcome(
        &self,
        s: Seq<PaymentView>,
        d: Seq<Seq<char>>,
        obs: Seq<crate::manajemen_pembayaran::patterns::observer::AnyPaymentObserver>,
        s2: Seq<PaymentView>,
        d2: Seq<Seq<char>>,
        r: Result<Payment, String>,
    ) -> bool {
        add_installment_outcome(s, d, obs, self.payment_id@, self.amount as int, s2, d2, r)
    }

    fn execute(&self, repository: &mut PaymentRepositoryImpl, subject: &mut PaymentSubject) -> (r: Result<Payment, String>)
    {
        let mut payment = match repository.find_by_id(self.payment_id.as_str()) {
            Some(p) => p,
            None => {
                return Err(not_found_text(self.payment_id.as_str()));
            },
        };
        proof {
            lemma_found_is_stored(repository@, self.payment_id@, payment@);
        }
        let state = PaymentStateFactory::create(&payment.status);
        match state.process_payment(&mut payment, self.amount) {
            Ok(()) => {},
            Err(e) => {
                return Err(e);
            },
        }
        let updated = match repository.update(payment) {
            Ok(p) => p,
            Err(e) => {
                return Err(e);
            },
        };
        subject.notify(&updated);
        Ok(updated)
    }
}

/// Deletes a payment that is still being paid in installments.
pub struct DeletePaymentCommand {
    pub payment_id: String,
}

impl DeletePaymentCommand {
    pub fn new(payment_id: String) -> (c: Self)
        ensures
            c.payment_id == payment_id,
    {
        DeletePaymentCommand { payment_id }
    }

    pub fn execute(&self, repository: &mut PaymentRepositoryImpl) -> (r: Result<(), String>)
        requires
            old(repository).wf(),
        ensures
            final(repository).wf(),
            delete_outcome(old(repository)@, self.payment_id@, final(repository)@, r),
    {
        let payment = match repository.find_by_id(self.payment_id.as_str()) {
            Some(p) => p,
            None => {
                return Err(not_found_text(self.payment_id.as_str()));
            },
        };
        proof {
            lemma_found_is_stored(repository@, self.payment_id@, payment@);
        }
        let state = PaymentStateFactory::create(&payment.status);
        if !state.can_delete() {
            return Err(
                String::from_str("Tidak dapat menghapus pembayaran dengan status ").concat(
                    state.get_name().as_str(),
                ),
            );
        }
        repository.delete(self.payment_id.as_str())
    }
}

} // verus!
