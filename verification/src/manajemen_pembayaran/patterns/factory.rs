//! Choosing a processor for a method and the rules for a status.
use vstd::prelude::*;
use crate::manajemen_pembayaran::enums::payment_status::PaymentStatus;
use crate::manajemen_pembayaran::model::payment::PaymentMethod;
use crate::manajemen_pembayaran::patterns::state::{
    AnyPaymentState, InstallmentState, PaidState, PaymentState,
};
use crate::manajemen_pembayaran::patterns::strategy::{
    AnyPaymentProcessor, BankTransferPaymentProcessor, CashPaymentProcessor,
    CreditCardPaymentProcessor, EWalletPaymentProcessor, PaymentProcessor,
};

verus! {

pub struct PaymentProcessorFactory;

impl PaymentProcessorFactory {
    /// The processor for `method`.
    pub fn create(method: PaymentMethod) -> (p: AnyPaymentProcessor)
        ensures
            p.method_spec() == method,
    {
        match method {
            PaymentMethod::Cash => AnyPaymentProcessor::Cash(CashPaymentProcessor),
            PaymentMethod::CreditCard => AnyPaymentProcessor::CreditCard(CreditCardPaymentProcessor),
            PaymentMethod::BankTransfer => AnyPaymentProcessor::BankTransfer(
                BankTransferPaymentProcessor,
            ),
            PaymentMethod::EWallet => AnyPaymentProcessor::EWallet(EWalletPaymentProcessor),
        }
    }
}

pub struct PaymentStateFactory;

impl PaymentStateFactory {
    /// The rules for `status`.
    pub fn create(status: &PaymentStatus) -> (s: AnyPaymentState)
        ensures
            s.status_spec() == *status,
    {
        match status {
            PaymentStatus::Paid => AnyPaymentState::Paid(PaidState),
            PaymentStatus::Installment => AnyPaymentState::Installment(InstallmentState),
        }
    }
}

} // verus!
