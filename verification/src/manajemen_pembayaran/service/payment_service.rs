//! Reading payment methods and statuses from text, and the errors of the
//! payment service.
use vstd::prelude::*;
use vstd::string::*;
use crate::clock::now_timestamp;
use crate::manajemen_pembayaran::enums::payment_status::{
    status_code, status_of_text, PaymentStatus,
};
use crate::manajemen_pembayaran::model::payment::{
    bank_transfer_text, cash_text, credit_card_text, e_wallet_text, installment_views,
    method_code, method_of_code, Installment, Payment, PaymentMethod, PaymentView,
};
use crate::manajemen_pembayaran::patterns::state::is_installment_id;
use crate::manajemen_pembayaran::patterns::strategy::{is_prefixed_uuid, prefixed_uuid};
use crate::text::{
    ascii_lowercase, ascii_uppercase, is_ascii_text, lemma_uppercase_ignores_lowercasing,
    to_uppercase, uppercase_of,
};

verus! {

/// Why a payment operation failed.
#[derive(Debug)]
pub enum PaymentError {
    DatabaseError(String),
    NotFound(String),
    InvalidInput(String),
}

/// The method a text names, compared after uppercasing it.
pub open spec fn method_of_text(s: Seq<char>) -> Option<PaymentMethod> {
    method_of_code(uppercase_of(s))
}

/// The message a payment in another status is refused an installment with.
pub open spec fn not_installment_message() -> Seq<char> {
    "Cannot add installment to a payment that is not in INSTALLMENT status"@
}

/// Operations on payments kept in the database; the parts here compute,
/// the database work is done around them.
pub struct PaymentService;

impl PaymentService {
    pub fn new() -> (s: Self) {
        PaymentService
    }

    /// The error a failed lookup of payment `id` is reported with: not
    /// found where the database had no such row, a database error carrying
    /// the driver's text `detail` otherwise.
    pub fn lookup_error(&self, id: &str, row_missing: bool, detail: String) -> (e: PaymentError)
        ensures
            row_missing ==> (e matches PaymentError::NotFound(m) && m@ == "Payment with id "@ + id@ + " not found"@),
            !row_missing ==> e == PaymentError::DatabaseError(detail),
    {
        if row_missing {
            PaymentError::NotFound(String::from_str("Payment with id ").concat(id).concat(" not found"))
        } else {
            PaymentError::DatabaseError(detail)
        }
    }

    /// A fresh payment identifier: `PMT-` followed by a UUID.
    pub fn generate_payment_id(&self) -> (id: String)
        ensures
            is_prefixed_uuid("PMT-"@, id@),
    {
        prefixed_uuid("PMT-")
    }

    /// Reads a payment method from its code, in any letter case.
    pub fn parse_payment_method(&self, method_str: &str) -> (r: Result<PaymentMethod, PaymentError>)
        ensures
            match method_of_text(method_str@) {
                Some(m) => r == Ok::<PaymentMethod, PaymentError>(m),
                None => r matches Err(PaymentError::InvalidInput(msg)) && msg@
                    == "Invalid payment method: "@ + method_str@,
            },
    {
        let upper = to_uppercase(method_str);
        if upper == cash_text() {
            Ok(PaymentMethod::Cash)
        } else if upper == credit_card_text() {
            Ok(PaymentMethod::CreditCard)
        } else if upper == bank_transfer_text() {
            Ok(PaymentMethod::BankTransfer)
        } else if upper == e_wallet_text() {
            Ok(PaymentMethod::EWallet)
        } else {
            Err(
                PaymentError::InvalidInput(
                    String::from_str("Invalid payment method: ").concat(method_str),
                ),
            )
        }
    }

    /// Reads a payment status from its code, in any letter case.
    pub fn parse_payment_status(&self, status_str: &str) -> (r: Result<PaymentStatus, PaymentError>)
        ensures
            match status_of_text(status_str@) {
                Some(s) => r == Ok::<PaymentStatus, PaymentError>(s),
                None => r matches Err(PaymentError::InvalidInput(msg)) && msg@
                    == "Invalid payment status: "@ + status_str@,
            },
    {
        match PaymentStatus::from_string(status_str) {
            Some(s) => Ok(s),
            None => Err(
                PaymentError::InvalidInput(
                    String::from_str("Invalid payment status: ").concat(status_str),
                ),
            ),
        }
    }

    /// `payment`, read from the database, with a new installment of `amount`
    /// towards `payment_id`; refused unless the payment is being paid in
    /// installments. The installment is dated `now`.
    pub fn prepare_installment_at(&self, payment: Payment, payment_id: &str, amount: i64, now: i64) -> (r: Result<Payment, PaymentError>)
        ensures
            payment@.status != PaymentStatus::Installment ==> (r matches Err(
                PaymentError::InvalidInput(msg),
            ) && msg@ == not_installment_message()),
            payment@.status == PaymentStatus::Installment ==> (r matches Ok(p) && {
                &&& p@.installments.drop_last() == payment@.installments
                &&& p@.installments.len() == payment@.installments.len() + 1
                &&& p@.installments.last().payment_id == payment_id@
                &&& p@.installments.last().amount == amount
                &&& is_installment_id(p@.installments.last().id)
                &&& p@ == PaymentView { installments: p@.installments, ..payment@ }
                &&& p@.installments.last().payment_date == now
            }),
    {
        if payment.status != PaymentStatus::Installment {
            return Err(
                PaymentError::InvalidInput(
                    String::from_str(
                        "Cannot add installment to a payment that is not in INSTALLMENT status",
                    ),
                ),
            );
        }
        let installment = Installment {
            id: prefixed_uuid("INST-"),
            payment_id: String::from_str(payment_id),
            amount,
            payment_date: now,
        };
        let mut updated = payment;
        let ghost before = updated.installments@;
        updated.installments.push(installment);
        assert(installment_views(updated.installments@).drop_last() =~= installment_views(before));
        Ok(updated)
    }

    /// `payment`, read from the database, with a new installment of `amount`
    /// towards `payment_id`; refused unless the payment is being paid in
    /// installments.
    pub fn prepare_installment(&self, payment: Payment, payment_id: &str, amount: i64) -> (r: Result<Payment, PaymentError>)
        ensures
            payment@.status != PaymentStatus::Installment ==> (r matches Err(
                PaymentError::InvalidInput(msg),
            ) && msg@ == not_installment_message()),
            payment@.status == PaymentStatus::Installment ==> (r matches Ok(p) && {
                &&& p@.installments.drop_last() == payment@.installments
                &&& p@.installments.len() == payment@.installments.len() + 1
                &&& p@.installments.last().payment_id == payment_id@
                &&& p@.installments.last().amount == amount
                &&& is_installment_id(p@.installments.last().id)
                &&& p@ == PaymentView { installments: p@.installments, ..payment@ }
            }),
    {
        self.prepare_installment_at(payment, payment_id, amount, now_timestamp())
    }
}

/// Reading back the code of a method gives the method.
pub proof fn lemma_method_code_roundtrip(m: PaymentMethod)
    ensures
        method_of_text(method_code(m)) == Some(m),
{
    let code = method_code(m);
    assert(is_ascii_text(code));
    assert(ascii_uppercase(code) =~= code);
}

/// A method code written in lowercase reads back to the method too.
pub proof fn lemma_method_lowercase_roundtrip(m: PaymentMethod)
    ensures
        method_of_text(ascii_lowercase(method_code(m))) == Some(m),
{
    lemma_method_code_roundtrip(m);
    let code = method_code(m);
    assert(is_ascii_text(code));
    lemma_uppercase_ignores_lowercasing(code);
}

/// A text that reads as a method is that method's code in some letter case:
/// uppercased, it is the code.
pub proof fn lemma_method_text_is_code(x: Seq<char>, m: PaymentMethod)
    requires
        method_of_text(x) == Some(m),
    ensures
        uppercase_of(x) == method_code(m),
{
}

} // verus!
