//! How each payment method turns an amount into a payment identifier.
use vstd::prelude::*;
use vstd::string::*;
use crate::ident::{is_uuid_text, new_uuid_v4_string};
use crate::manajemen_pembayaran::model::payment::PaymentMethod;

verus! {

/// The text a generated identifier starts with: `CASH-`, `CC-`, `BANK-` or
/// `EWALLET-`.
pub open spec fn payment_id_prefix(m: PaymentMethod) -> Seq<char> {
    match m {
        PaymentMethod::Cash => "CASH-"@,
        PaymentMethod::CreditCard => "CC-"@,
        PaymentMethod::BankTransfer => "BANK-"@,
        PaymentMethod::EWallet => "EWALLET-"@,
    }
}

/// `id` is `prefix` followed by the text of a fresh UUID.
pub open spec fn is_prefixed_uuid(prefix: Seq<char>, id: Seq<char>) -> bool {
    &&& id.len() == prefix.len() + 36
    &&& id.subrange(0, prefix.len() as int) == prefix
    &&& is_uuid_text(id.subrange(prefix.len() as int, id.len() as int))
}

/// The message a processor refuses an amount that is not positive with.
pub open spec fn processor_error(m: PaymentMethod) -> Seq<char> {
    match m {
        PaymentMethod::Cash => "Jumlah pembayaran tunai harus lebih dari 0"@,
        PaymentMethod::CreditCard => "Jumlah pembayaran kartu kredit harus lebih dari 0"@,
        PaymentMethod::BankTransfer => "Jumlah pembayaran transfer bank harus lebih dari 0"@,
        PaymentMethod::EWallet => "Jumlah pembayaran e-wallet harus lebih dari 0"@,
    }
}

/// `prefix` followed by a fresh UUID.
pub fn prefixed_uuid(prefix: &str) -> (id: String)
    ensures
        is_prefixed_uuid(prefix@, id@),
{
    let u = new_uuid_v4_string();
    let id = String::from_str(prefix).concat(u.as_str());
    assert(id@.subrange(0, prefix@.len() as int) =~= prefix@);
    assert(id@.subrange(prefix@.len() as int, id@.len() as int) =~= u@);
    id
}

/// A way of taking a payment.
pub trait PaymentProcessor {
    /// The method this processor takes payments by.
    spec fn method_spec(&self) -> PaymentMethod;

    /// Accepts a positive amount and returns the identifier of the new
    /// payment; refuses any other amount.
    fn process(&self, amount: i64, transaction_id: &str) -> (r: Result<String, String>)
        ensures
            r is Ok <==> amount > 0,
            r matches Ok(id) ==> is_prefixed_uuid(payment_id_prefix(self.method_spec()), id@),
            r matches Err(msg) ==> msg@ == processor_error(self.method_spec()),
    ;

    /// The method this processor takes payments by.
    fn get_method(&self) -> (m: PaymentMethod)
        ensures
            m == self.method_spec(),
    ;
}

pub struct CashPaymentProcessor;

impl PaymentProcessor for CashPaymentProcessor {
    open spec fn method_spec(&self) -> PaymentMethod {
        PaymentMethod::Cash
    }

    fn process(&self, amount: i64, transaction_id: &str) -> (r: Result<String, String>) {
        if amount <= 0 {
            return Err(String::from_str("Jumlah pembayaran tunai harus lebih dari 0"));
        }
        Ok(prefixed_uuid("CASH-"))
    }

    fn get_method(&self) -> (m: PaymentMethod) {
        PaymentMethod::Cash
    }
}

pub struct CreditCardPaymentProcessor;

impl PaymentProcessor for CreditCardPaymentProcessor {
    open spec fn method_spec(&self) -> PaymentMethod {
        PaymentMethod::CreditCard
    }

    fn process(&self, amount: i64, transaction_id: &str) -> (r: Result<String, String>) {
        if amount <= 0 {
            return Err(String::from_str("Jumlah pembayaran kartu kredit harus lebih dari 0"));
        }
        Ok(prefixed_uuid("CC-"))
    }

    fn get_method(&self) -> (m: PaymentMethod) {
        PaymentMethod::CreditCard
    }
}

pub struct BankTransferPaymentProcessor;

impl PaymentProcessor for BankTransferPaymentProcessor {
    open spec fn method_spec(&self) -> PaymentMethod {
        PaymentMethod::BankTransfer
    }

    fn process(&self, amount: i64, transaction_id: &str) -> (r: Result<String, String>) {
        if amount <= 0 {
            return Err(String::from_str("Jumlah pembayaran transfer bank harus lebih dari 0"));
        }
        Ok(prefixed_uuid("BANK-"))
    }

    fn get_method(&self) -> (m: PaymentMethod) {
        PaymentMethod::BankTransfer
    }
}

pub struct EWalletPaymentProcessor;

impl PaymentProcessor for EWalletPaymentProcessor {
    open spec fn method_spec(&self) -> PaymentMethod {
        PaymentMethod::EWallet
    }

    fn process(&self, amount: i64, transaction_id: &str) -> (r: Result<String, String>) {
        if amount <= 0 {
            return Err(String::from_str("Jumlah pembayaran e-wallet harus lebih dari 0"));
        }
        Ok(prefixed_uuid("EWALLET-"))
    }

    fn get_method(&self) -> (m: PaymentMethod) {
        PaymentMethod::EWallet
    }
}

/// One of the four processors, chosen at run time.
pub enum AnyPaymentProcessor {
    Cash(CashPaymentProcessor),
    CreditCard(CreditCardPaymentProcessor),
    BankTransfer(BankTransferPaymentProcessor),
    EWallet(EWalletPaymentProcessor),
}

impl PaymentProcessor for AnyPaymentProcessor {
    open spec fn method_spec(&self) -> PaymentMethod {
        match self {
            AnyPaymentProcessor::Cash(p) => p.method_spec(),
            AnyPaymentProcessor::CreditCard(p) => p.method_spec(),
            AnyPaymentProcessor::BankTransfer(p) => p.method_spec(),
            AnyPaymentProcessor::EWallet(p) => p.method_spec(),
        }
    }

    fn process(&self, amount: i64, transaction_id: &str) -> (r: Result<String, String>) {
        match self {
            AnyPaymentProcessor::Cash(p) => p.process(amount, transaction_id),
            AnyPaymentProcessor::CreditCard(p) => p.process(amount, transaction_id),
            AnyPaymentProcessor::BankTransfer(p) => p.process(amount, transaction_id),
            AnyPaymentProcessor::EWallet(p) => p.process(amount, transaction_id),
        }
    }

    fn get_method(&self) -> (m: PaymentMethod) {
        match self {
            AnyPaymentProcessor::Cash(p) => p.get_method(),
            AnyPaymentProcessor::CreditCard(p) => p.get_method(),
            AnyPaymentProcessor::BankTransfer(p) => p.get_method(),
            AnyPaymentProcessor::EWallet(p) => p.get_method(),
        }
    }
}

} // verus!
