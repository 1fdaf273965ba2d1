//! Requests to the payment service and the responses it answers them with.
use vstd::prelude::*;
use vstd::string::*;
use crate::manajemen_pembayaran::enums::payment_status::{status_of_text, PaymentStatus};
use crate::manajemen_pembayaran::model::payment::{
    bank_transfer_text, cash_text, credit_card_text, e_wallet_text, Payment, PaymentMethod,
    PaymentView,
};
use crate::manajemen_pembayaran::patterns::command::{
    add_installment_outcome, create_outcome, delete_outcome, stored, update_status_outcome,
};
use crate::manajemen_pembayaran::patterns::observer::{texts, AnyPaymentObserver};
use crate::manajemen_pembayaran::repository::payment_repository::{
    is_listed, opt_filters, opt_text, PaymentFilters, PaymentFiltersView,
};
use crate::manajemen_pembayaran::repository::payment_repository_impl::{has_id, has_transaction, payment_views};
use crate::manajemen_pembayaran::service::payment_service::method_of_text;
use crate::manajemen_pembayaran::main::service::payment_service_impl::PaymentServiceImpl;
use crate::text::to_uppercase;

verus! {

pub struct CreatePaymentRequest {
    pub transaction_id: String,
    pub amount: i64,
    pub method: String,
}

pub struct UpdatePaymentStatusRequest {
    pub payment_id: String,
    pub new_status: String,
    pub additional_amount: Option<i64>,
}

pub struct AddInstallmentRequest {
    pub payment_id: String,
    pub amount: i64,
}

pub struct PaymentFilterRequest {
    pub status: Option<String>,
    pub method: Option<String>,
}

/// The answer to a request: whether it succeeded, its data, and a message.
pub struct ApiResponse<T> {
    pub success: bool,
    pub data: Option<T>,
    pub message: Option<String>,
}

/// The answer that reports the outcome `r` of a service operation.
pub open spec fn report<T>(r: Result<T, String>) -> ApiResponse<T> {
    match r {
        Ok(v) => ApiResponse { success: true, data: Some(v), message: None },
        Err(e) => ApiResponse { success: false, data: None, message: Some(e) },
    }
}

/// The outcome an answer reports.
pub open spec fn outcome_of<T>(resp: ApiResponse<T>) -> Result<T, String> {
    if resp.success {
        Ok(resp.data->0)
    } else {
        Err(resp.message->0)
    }
}

/// A failed answer with message `msg`.
pub open spec fn is_failure<T>(resp: ApiResponse<T>, msg: Seq<char>) -> bool {
    &&& !resp.success
    &&& resp.data is None
    &&& resp.message matches Some(m) && m@ == msg
}

/// The filters a filter request asks for: none where it names no condition.
pub open spec fn requested_filters(filter: Option<PaymentFilterRequest>) -> Option<PaymentFiltersView> {
    match filter {
        Some(f) => if f.status is Some || f.method is Some {
            Some(PaymentFiltersView { status: opt_text(f.status), method: opt_text(f.method), transaction_id: None })
        } else {
            None
        },
        None => None,
    }
}

fn failure<T>(msg: &str) -> (r: ApiResponse<T>)
    ensures
        is_failure(r, msg@),
{
    ApiResponse { success: false, data: None, message: Some(String::from_str(msg)) }
}

fn respond<T>(r: Result<T, String>) -> (resp: ApiResponse<T>)
    ensures
        resp == report(r),
{
    match r {
        Ok(v) => ApiResponse { success: true, data: Some(v), message: None },
        Err(e) => ApiResponse { success: false, data: None, message: Some(e) },
    }
}

/// Answers payment requests from a payment service.
pub struct PaymentController {
    service: PaymentServiceImpl,
}

impl PaymentController {
    /// The service behind the controller.
    pub closed spec fn service(&self) -> PaymentServiceImpl {
        self.service
    }

    pub open spec fn wf(&self) -> bool {
        self.service().wf()
    }

    pub fn new(service: PaymentServiceImpl) -> (c: Self)
        requires
            service.wf(),
        ensures
            c.wf(),
            c.service() == service,
    {
        PaymentController { service }
    }

    /// Creates a payment; the method is read from its code in any letter
    /// case.
    pub fn create_payment(&mut self, request: CreatePaymentRequest) -> (resp: ApiResponse<Payment>)
        requires
            old(self).wf(),
        ensures
            final(self).wf(),
            final(self).service().observers() == old(self).service().observers(),
            match method_of_text(request.method@) {
                None => {
                    &&& is_failure(resp, "Metode pembayaran tidak valid"@)
                    &&& final(self).service() == old(self).service()
                },
                Some(m) => {
                    &&& resp == report(outcome_of(resp))
                    &&& create_outcome(
                        old(self).service().payments(),
                        old(self).service().delivered(),
                        old(self).service().observers(),
                        request.transaction_id@,
                        request.amount as int,
                        m,
                        final(self).service().payments(),
                        final(self).service().delivered(),
                        outcome_of(resp),
                    )
                },
            },
    {
        let upper = to_uppercase(request.method.as_str());
        let method = if upper == cash_text() {
            PaymentMethod::Cash
        } else if upper == credit_card_text() {
            PaymentMethod::CreditCard
        } else if upper == bank_transfer_text() {
            PaymentMethod::BankTransfer
        } else if upper == e_wallet_text() {
            PaymentMethod::EWallet
        } else {
            return failure("Metode pembayaran tidak valid");
        };
        respond(self.service.create_payment(request.transaction_id, request.amount, method))
    }

    /// Puts a payment into a status read from its code in any letter case.
    pub fn update_payment_status(&mut self, request: UpdatePaymentStatusRequest) -> (resp: ApiResponse<Payment>)
        requires
            old(self).wf(),
        ensures
            final(self).wf(),
            final(self).service().observers() == old(self).service().observers(),
            match status_of_text(request.new_status@) {
                None => {
                    &&& is_failure(resp, "Status pembayaran tidak valid"@)
                    &&& final(self).service() == old(self).service()
                },
                Some(s) => {
                    &&& resp == report(outcome_of(resp))
                    &&& update_status_outcome(
                        old(self).service().payments(),
                        old(self).service().delivered(),
                        old(self).service().observers(),
                        request.payment_id@,
                        s,
                        request.additional_amount,
                        final(self).service().payments(),
                        final(self).service().delivered(),
                        outcome_of(resp),
                    )
                },
            },
    {
        let status = match PaymentStatus::from_string(request.new_status.as_str()) {
            Some(s) => s,
            None => {
                return failure("Status pembayaran tidak valid");
            },
        };
        respond(
            self.service.update_payment_status(
                request.payment_id,
                status,
                request.additional_amount,
            ),
        )
    }

    /// Records an installment towards a payment.
    pub fn add_installment(&mut self, request: AddInstallmentRequest) -> (resp: ApiResponse<Payment>)
        requires
            old(self).wf(),
        ensures
            final(self).wf(),
            final(self).service().observers() == old(self).service().observers(),
            resp == report(outcome_of(resp)),
            add_installment_outcome(
                old(self).service().payments(),
                old(self).service().delivered(),
                old(self).service().observers(),
                request.payment_id@,
                request.amount as int,
                final(self).service().payments(),
                final(self).service().delivered(),
                outcome_of(resp),
            ),
    {
        respond(self.service.add_installment(request.payment_id.as_str(), request.amount))
    }

    /// The payment stored under `payment_id`.
    pub fn get_payment(&self, payment_id: &str) -> (resp: ApiResponse<Payment>)
        requires
            self.wf(),
        ensures
            has_id(self.service().payments(), payment_id@) ==> {
                &&& resp.success && resp.message is None
                &&& resp.data matches Some(p) && p@ == stored(self.service().payments(), payment_id@)
            },
            !has_id(self.service().payments(), payment_id@) ==> is_failure(
                resp,
                "Pembayaran dengan ID "@ + payment_id@ + " tidak ditemukan"@,
            ),
    {
        match self.service.get_payment(payment_id) {
            Some(p) => ApiResponse { success: true, data: Some(p), message: None },
            None => ApiResponse {
                success: false,
                data: None,
                message: Some(
                    String::from_str("Pembayaran dengan ID ").concat(payment_id).concat(
                        " tidak ditemukan",
                    ),
                ),
            },
        }
    }

    /// The first stored payment of transaction `transaction_id`.
    pub fn get_payment_by_transaction(&self, transaction_id: &str) -> (resp: ApiResponse<Payment>)
        ensures
            has_transaction(self.service().payments(), transaction_id@) ==> {
                &&& resp.success && resp.message is None
                &&& resp.data matches Some(p) && exists|i: int|
                    0 <= i < self.service().payments().len() && #[trigger] self.service().payments()[i]
                        == p@ && p@.transaction_id == transaction_id@ && forall|j: int|
                        0 <= j < i ==> self.service().payments()[j].transaction_id
                            != transaction_id@
            },
            !has_transaction(self.service().payments(), transaction_id@) ==> is_failure(
                resp,
                "Pembayaran untuk transaksi "@ + transaction_id@ + " tidak ditemukan"@,
            ),
    {
        match self.service.get_payment_by_transaction(transaction_id) {
            Some(p) => ApiResponse { success: true, data: Some(p), message: None },
            None => ApiResponse {
                success: false,
                data: None,
                message: Some(
                    String::from_str("Pembayaran untuk transaksi ").concat(transaction_id).concat(
                        " tidak ditemukan",
                    ),
                ),
            },
        }
    }

    /// The stored payments that the filter lists; a filter that names no
    /// condition lists every payment.
    pub fn get_all_payments(&self, filter: Option<PaymentFilterRequest>) -> (resp: ApiResponse<Vec<Payment>>)
        ensures
            resp.success,
            resp.message is None,
            resp.data matches Some(v) && payment_views(v@) == self.service().payments().filter(
                |p: PaymentView| is_listed(p, requested_filters(filter)),
            ),
    {
        let ghost requested = requested_filters(filter);
        let filters = match filter {
            Some(f) => {
                if f.status.is_some() || f.method.is_some() {
                    Some(PaymentFilters { status: f.status, method: f.method, transaction_id: None })
                } else {
                    None
                }
            },
            None => None,
        };
        assert(opt_filters(filters) == requested);
        let payments = self.service.get_all_payments(filters);
        ApiResponse { success: true, data: Some(payments), message: None }
    }

    /// Deletes a payment that is still being paid in installments.
    pub fn delete_payment(&mut self, payment_id: &str) -> (resp: ApiResponse<()>)
        requires
            old(self).wf(),
        ensures
            final(self).wf(),
            final(self).service().observers() == old(self).service().observers(),
            final(self).service().delivered() == old(self).service().delivered(),
            delete_outcome(
                old(self).service().payments(),
                payment_id@,
                final(self).service().payments(),
                if resp.success { Ok(()) } else { Err(resp.message->0) },
            ),
            resp.success ==> resp.data == Some(()),
            resp.success ==> (resp.message matches Some(m) && m@ == "Pembayaran berhasil dihapus"@),
            !resp.success ==> resp.data is None && resp.message is Some,
    {
        match self.service.delete_payment(String::from_str(payment_id)) {
            Ok(()) => ApiResponse {
                success: true,
                data: Some(()),
                message: Some(String::from_str("Pembayaran berhasil dihapus")),
            },
            Err(e) => ApiResponse { success: false, data: None, message: Some(e) },
        }
    }

    /// Hands over the notices the observers recorded so far, oldest first.
    pub fn take_notifications(&mut self) -> (r: Vec<String>)
        requires
            old(self).wf(),
        ensures
            final(self).wf(),
            texts(r@) == old(self).service().delivered(),
            final(self).service().payments() == old(self).service().payments(),
            final(self).service().observers() == old(self).service().observers(),
            final(self).service().delivered() == Seq::<Seq<char>>::empty(),
    {
        self.service.take_notifications()
    }
}

} // verus!
