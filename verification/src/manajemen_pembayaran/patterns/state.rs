//! What a payment in each status allows: further installments, deletion.
use vstd::prelude::*;
use vstd::string::*;
use crate::clock::now_timestamp;
use crate::manajemen_pembayaran::enums::payment_status::{
    cicilan_text, lunas_text, status_code, PaymentStatus,
};
use crate::manajemen_pembayaran::model::payment::{
    sum_installments, total_paid, Installment, InstallmentView, Payment, PaymentView,
};
use crate::manajemen_pembayaran::patterns::strategy::{is_prefixed_uuid, prefixed_uuid};

verus! {

/// An installment identifier: `INST-` followed by a fresh UUID.
pub open spec fn is_installment_id(id: Seq<char>) -> bool {
    is_prefixed_uuid("INST-"@, id)
}

/// `i` is a new installment of `amount` towards the payment `payment_id`.
pub open spec fn is_new_installment(i: InstallmentView, payment_id: Seq<char>, amount: int) -> bool {
    &&& i.payment_id == payment_id
    &&& i.amount == amount
    &&& is_installment_id(i.id)
}

/// `new` is `old` with one installment of `amount` appended and nothing else
/// changed but, possibly, the status.
pub open spec fn installment_appended(old: PaymentView, new: PaymentView, amount: int) -> bool {
    &&& new.installments.len() == old.installments.len() + 1
    &&& new.installments.drop_last() == old.installments
    &&& is_new_installment(new.installments.last(), old.id, amount)
    &&& new.id == old.id
    &&& new.transaction_id == old.transaction_id
    &&& new.amount == old.amount
    &&& new.method == old.method
    &&& new.payment_date == old.payment_date
    &&& new.due_date == old.due_date
}

/// The status after an installment: settled once the installments cover the
/// amount, unchanged otherwise.
pub open spec fn status_after_installment(old_status: PaymentStatus, installments: Seq<InstallmentView>, amount: int) -> PaymentStatus {
    if total_paid(installments) >= amount {
        PaymentStatus::Paid
    } else {
        old_status
    }
}

/// The message an installment is refused with by a settled payment.
pub open spec fn already_paid_message() -> Seq<char> {
    "Pembayaran sudah lunas, tidak dapat menambahkan pembayaran lagi"@
}

/// The message an installment amount that is not positive is refused with.
pub open spec fn non_positive_installment_message() -> Seq<char> {
    "Jumlah cicilan harus lebih dari 0"@
}

/// What processing an installment of `amount` does to a payment in `state`.
pub open spec fn installment_outcome(state: PaymentStatus, old: PaymentView, amount: int, new: PaymentView, r: Result<(), String>) -> bool {
    match state {
        PaymentStatus::Paid => {
            &&& r matches Err(msg) && msg@ == already_paid_message()
            &&& new == old
        },
        PaymentStatus::Installment => if amount <= 0 {
            &&& r matches Err(msg) && msg@ == non_positive_installment_message()
            &&& new == old
        } else {
            &&& r is Ok
            &&& installment_appended(old, new, amount)
            &&& new.status == status_after_installment(old.status, new.installments, old.amount)
        },
    }
}

/// The rules of one payment status.
pub trait PaymentState {
    /// The status these rules are for.
    spec fn status_spec(&self) -> PaymentStatus;

    /// Records an installment of `amount` where the status allows one.
    fn process_payment(&self, payment: &mut Payment, amount: i64) -> (r: Result<(), String>)
        ensures
            installment_outcome(self.status_spec(), old(payment)@, amount as int, final(payment)@, r),
    ;

    /// Records an installment of `amount`, dated `now`, where the status
    /// allows one.
    fn process_payment_at(&self, payment: &mut Payment, amount: i64, now: i64) -> (r: Result<(), String>)
        ensures
            installment_outcome(self.status_spec(), old(payment)@, amount as int, final(payment)@, r),
            r is Ok ==> final(payment)@.installments.last().payment_date == now,
    ;

    /// Whether a payment in this status may be deleted.
    fn can_delete(&self) -> (b: bool)
        ensures
            b == (self.status_spec() == PaymentStatus::Installment),
    ;

    /// The code of the status.
    fn get_name(&self) -> (s: String)
        ensures
            s@ == status_code(self.status_spec()),
    ;
}

/// The rules of a settled payment.
pub struct PaidState;

impl PaymentState for PaidState {
    open spec fn status_spec(&self) -> PaymentStatus {
        PaymentStatus::Paid
    }

    fn process_payment(&self, payment: &mut Payment, amount: i64) -> (r: Result<(), String>) {
        self.process_payment_at(payment, amount, now_timestamp())
    }

    fn process_payment_at(&self, payment: &mut Payment, amount: i64, now: i64) -> (r: Result<(), String>) {
        Err(String::from_str("Pembayaran sudah lunas, tidak dapat menambahkan pembayaran lagi"))
    }

    fn can_delete(&self) -> (b: bool) {
        false
    }

    fn get_name(&self) -> (s: String) {
        lunas_text()
    }
}

/// The rules of a payment being paid in installments.
pub struct InstallmentState;

impl PaymentState for InstallmentState {
    open spec fn status_spec(&self) -> PaymentStatus {
        PaymentStatus::Installment
    }

    fn process_payment(&self, payment: &mut Payment, amount: i64) -> (r: Result<(), String>) {
        self.process_payment_at(payment, amount, now_timestamp())
    }

    fn process_payment_at(&self, payment: &mut Payment, amount: i64, now: i64) -> (r: Result<(), String>) {
        if amount <= 0 {
            return Err(String::from_str("Jumlah cicilan harus lebih dari 0"));
        }
        let installment = Installment {
            id: prefixed_uuid("INST-"),
            payment_id: payment.id.clone(),
            amount,
            payment_date: now,
        };
        let ghost old_installments = payment.installments@;
        payment.installments.push(installment);
        proof {
            assert(payment.installments@.drop_last() =~= old_installments);
            assert(crate::manajemen_pembayaran::model::payment::installment_views(payment.installments@).drop_last()
                =~= crate::manajemen_pembayaran::model::payment::installment_views(old_installments));
        }
        let total_paid = sum_installments(&payment.installments);
        if total_paid >= payment.amount as i128 {
            payment.status = PaymentStatus::Paid;
        }
        Ok(())
    }

    fn can_delete(&self) -> (b: bool) {
        true
    }

    fn get_name(&self) -> (s: String) {
        cicilan_text()
    }
}

/// The rules of either status, chosen at run time.
pub enum AnyPaymentState {
    Paid(PaidState),
    Installment(InstallmentState),
}

impl PaymentState for AnyPaymentState {
    open spec fn status_spec(&self) -> PaymentStatus {
        match self {
            AnyPaymentState::Paid(s) => s.status_spec(),
            AnyPaymentState::Installment(s) => s.status_spec(),
        }
    }

    fn process_payment(&self, payment: &mut Payment, amount: i64) -> (r: Result<(), String>) {
        match self {
            AnyPaymentState::Paid(s) => s.process_payment(payment, amount),
            AnyPaymentState::Installment(s) => s.process_payment(payment, amount),
        }
    }

    fn process_payment_at(&self, payment: &mut Payment, amount: i64, now: i64) -> (r: Result<(), String>) {
        match self {
            AnyPaymentState::Paid(s) => s.process_payment_at(payment, amount, now),
            AnyPaymentState::Installment(s) => s.process_payment_at(payment, amount, now),
        }
    }

    fn can_delete(&self) -> (b: bool) {
        match self {
            AnyPaymentState::Paid(s) => s.can_delete(),
            AnyPaymentState::Installment(s) => s.can_delete(),
        }
    }

    fn get_name(&self) -> (s: String) {
        match self {
            AnyPaymentState::Paid(s) => s.get_name(),
            AnyPaymentState::Installment(s) => s.get_name(),
        }
    }
}

} // verus!
