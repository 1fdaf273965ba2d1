//! What the payment endpoints answer: reading a new payment from its
//! request, the filters of a listing, and the status and body of each
//! answer. The database work is done around these.
use vstd::prelude::*;
use vstd::string::*;
use crate::clock::{now_timestamp, rfc3339_timestamp};
use crate::manajemen_pembayaran::enums::payment_status::{status_of_text, PaymentStatus};
use crate::manajemen_pembayaran::model::payment::{InstallmentView, Payment, PaymentMethod, PaymentView};
use crate::manajemen_pembayaran::patterns::strategy::is_prefixed_uuid;
use crate::manajemen_pembayaran::repository::payment_repository::{opt_text, PaymentFilters, PaymentFiltersView};
use crate::manajemen_pembayaran::service::payment_service::{method_of_text, PaymentError, PaymentService};
use crate::text::{debug_quoted, debug_text, decimal, decimal_text};

verus! {

/// The body of an answer: whether the request succeeded, a message, and
/// the data.
#[derive(Debug)]
pub struct ApiResponse<T> {
    pub success: bool,
    pub message: String,
    pub data: Option<T>,
}

/// A request to record a payment.
pub struct CreatePaymentRequest {
    pub transaction_id: String,
    pub amount: i64,
    pub method: String,
    pub status: String,
    pub due_date: Option<String>,
}

/// The query of a payment listing.
pub struct PaymentFilterRequest {
    pub status: Option<String>,
    pub method: Option<String>,
    pub transaction_id: Option<String>,
}

/// The `Debug` text of `PaymentError::InvalidInput` carrying the message `m`.
pub open spec fn invalid_input_debug(m: Seq<char>) -> Seq<char> {
    "InvalidInput("@ + debug_quoted(m) + ")"@
}

/// The `Debug` text of a payment error.
pub open spec fn error_debug(e: PaymentError) -> Seq<char> {
    match e {
        PaymentError::DatabaseError(m) => "DatabaseError("@ + debug_quoted(m@) + ")"@,
        PaymentError::NotFound(m) => "NotFound("@ + debug_quoted(m@) + ")"@,
        PaymentError::InvalidInput(m) => invalid_input_debug(m@),
    }
}

/// The message answering a create request, where it is refused before any
/// storage: the method, then the status, then the due date is read.
pub open spec fn create_request_refusal(method: Seq<char>, status: Seq<char>, due: Option<Seq<char>>) -> Option<Seq<char>> {
    if method_of_text(method) is None {
        Some("Invalid payment method: "@ + invalid_input_debug("Invalid payment method: "@ + method))
    } else if status_of_text(status) is None {
        Some("Invalid payment status: "@ + invalid_input_debug("Invalid payment status: "@ + status))
    } else if due_date_of(due) is None {
        Some("Invalid due date format. Use RFC3339 format"@)
    } else {
        None
    }
}

/// The `Debug` text of a payment error, as `format!("{:?}", e)` writes it.
pub fn describe_error(e: &PaymentError) -> (r: String)
    ensures
        r@ == error_debug(*e),
{
    match e {
        PaymentError::DatabaseError(m) => String::from_str("DatabaseError(").concat(debug_text(m.as_str()).as_str()).concat(")"),
        PaymentError::NotFound(m) => String::from_str("NotFound(").concat(debug_text(m.as_str()).as_str()).concat(")"),
        PaymentError::InvalidInput(m) => String::from_str("InvalidInput(").concat(debug_text(m.as_str()).as_str()).concat(")"),
    }
}

/// `resp` carries `success`, the message `msg` and no data.
pub open spec fn answers_without_data<T>(resp: ApiResponse<T>, success: bool, msg: Seq<char>) -> bool {
    &&& resp.success == success
    &&& resp.message@ == msg
    &&& resp.data is None
}

fn answer<T>(success: bool, message: String, data: Option<T>) -> (r: ApiResponse<T>)
    ensures
        r.success == success,
        r.message == message,
        r.data == data,
{
    ApiResponse { success, message, data }
}

/// The answer to a request for a path that does not exist.
pub fn not_found_catcher() -> (r: ApiResponse<()>)
    ensures
        answers_without_data(r, false, "Resource not found"@),
{
    answer(false, String::from_str("Resource not found"), None)
}

/// The answer to a malformed request.
pub fn bad_request_catcher() -> (r: ApiResponse<()>)
    ensures
        answers_without_data(r, false, "Bad request"@),
{
    answer(false, String::from_str("Bad request"), None)
}

/// Whether a request's due date reads: absent, or an RFC 3339 time.
pub open spec fn due_date_of(d: Option<Seq<char>>) -> Option<Option<int>> {
    match d {
        None => Some(None),
        Some(s) => match rfc3339_timestamp(s) {
            Some(t) => Some(Some(t)),
            None => None,
        },
    }
}

/// `p` is the payment a create request asks to store: a fresh `PMT-`
/// identifier, the request's transaction and amount, the method, status and
/// due date it names, and no installments.
pub open spec fn created_from_request(request: CreatePaymentRequest, p: PaymentView) -> bool {
    &&& is_prefixed_uuid("PMT-"@, p.id)
    &&& p.transaction_id == request.transaction_id@
    &&& p.amount == request.amount as int
    &&& Some(p.method) == method_of_text(request.method@)
    &&& Some(p.status) == status_of_text(request.status@)
    &&& p.installments.len() == 0
    &&& Some(p.due_date) == due_date_of(opt_text(request.due_date))
}

/// The payment a create request asks to store, with a fresh `PMT-`
/// identifier; refused, with the message of a bad request, where the method,
/// the status or the due date cannot be read. The payment is dated `now`.
pub fn payment_from_request_at(request: &CreatePaymentRequest, now: i64) -> (r: Result<Payment, String>)
    ensures
        create_request_refusal(request.method@, request.status@, opt_text(request.due_date)) matches Some(msg)
            ==> (r matches Err(e) && e@ == msg),
        create_request_refusal(request.method@, request.status@, opt_text(request.due_date)) is None ==> (
        r matches Ok(p) && created_from_request(*request, p@) && p@.payment_date == now),
{
    let service = PaymentService::new();
    let method = match service.parse_payment_method(request.method.as_str()) {
        Ok(m) => m,
        Err(e) => {
            return Err(String::from_str("Invalid payment method: ").concat(describe_error(&e).as_str()));
        },
    };
    let status = match service.parse_payment_status(request.status.as_str()) {
        Ok(s) => s,
        Err(e) => {
            return Err(String::from_str("Invalid payment status: ").concat(describe_error(&e).as_str()));
        },
    };
    let due_date = match &request.due_date {
        Some(d) => match crate::clock::parse_rfc3339_timestamp(d.as_str()) {
            Some(t) => Some(t),
            None => {
                return Err(String::from_str("Invalid due date format. Use RFC3339 format"));
            },
        },
        None => None,
    };
    let p = Payment {
        id: service.generate_payment_id(),
        transaction_id: request.transaction_id.clone(),
        amount: request.amount,
        method,
        status,
        payment_date: now,
        installments: Vec::new(),
        due_date,
    };
    assert(p@.installments =~= Seq::<InstallmentView>::empty());
    Ok(p)
}

/// The payment a create request asks to store, with a fresh `PMT-`
/// identifier; refused, with the message of a bad request, where the method,
/// the status or the due date cannot be read.
pub fn payment_from_request(request: &CreatePaymentRequest) -> (r: Result<Payment, String>)
    ensures
        create_request_refusal(request.method@, request.status@, opt_text(request.due_date)) matches Some(msg)
            ==> (r matches Err(e) && e@ == msg),
        create_request_refusal(request.method@, request.status@, opt_text(request.due_date)) is None ==> (
        r matches Ok(p) && created_from_request(*request, p@)),
{
    payment_from_request_at(request, now_timestamp())
}

/// The status a status-change request asks for; refused, with the message
/// of a bad request, where it cannot be read.
pub fn status_from_request(new_status: &str) -> (r: Result<PaymentStatus, String>)
    ensures
        match status_of_text(new_status@) {
            Some(st) => r == Ok::<PaymentStatus, String>(st),
            None => r matches Err(e) && e@ == "Invalid payment status: "@ + invalid_input_debug(
                "Invalid payment status: "@ + new_status@,
            ),
        },
{
    let service = PaymentService::new();
    match service.parse_payment_status(new_status) {
        Ok(st) => Ok(st),
        Err(e) => Err(String::from_str("Invalid payment status: ").concat(describe_error(&e).as_str())),
    }
}

/// The answer to a malformed request: status 400, a failure carrying
/// `message`, and no data.
pub fn refusal_response<T>(message: String) -> (resp: (u16, ApiResponse<T>))
    ensures
        resp.0 == 400,
        answers_without_data(resp.1, false, message@),
{
    (400, answer(false, message, None))
}

/// A create request read into the payment to store, dated `now`; refused
/// with the answer of a bad request where the method, the status or the due
/// date cannot be read.
pub fn accept_create_request_at(request: &CreatePaymentRequest, now: i64) -> (r: Result<Payment, (u16, ApiResponse<Payment>)>)
    ensures
        create_request_refusal(request.method@, request.status@, opt_text(request.due_date)) matches Some(msg)
            ==> (r matches Err(resp) && resp.0 == 400 && answers_without_data(resp.1, false, msg)),
        create_request_refusal(request.method@, request.status@, opt_text(request.due_date)) is None ==> (
        r matches Ok(p) && created_from_request(*request, p@) && p@.payment_date == now),
{
    match payment_from_request_at(request, now) {
        Ok(p) => Ok(p),
        Err(message) => Err(refusal_response(message)),
    }
}

/// A create request read into the payment to store, dated when the clock is
/// read; refused with the answer of a bad request where the method, the
/// status or the due date cannot be read.
pub fn accept_create_request(request: &CreatePaymentRequest) -> (r: Result<Payment, (u16, ApiResponse<Payment>)>)
    ensures
        create_request_refusal(request.method@, request.status@, opt_text(request.due_date)) matches Some(msg)
            ==> (r matches Err(resp) && resp.0 == 400 && answers_without_data(resp.1, false, msg)),
        create_request_refusal(request.method@, request.status@, opt_text(request.due_date)) is None ==> (
        r matches Ok(p) && created_from_request(*request, p@)),
{
    accept_create_request_at(request, now_timestamp())
}

/// The status a status-change request asks for; refused with the answer of
/// a bad request where it cannot be read.
pub fn accept_status_request(new_status: &str) -> (r: Result<PaymentStatus, (u16, ApiResponse<Payment>)>)
    ensures
        match status_of_text(new_status@) {
            Some(st) => r matches Ok(s) && s == st,
            None => r matches Err(resp) && resp.0 == 400 && answers_without_data(
                resp.1,
                false,
                "Invalid payment status: "@ + invalid_input_debug("Invalid payment status: "@ + new_status@),
            ),
        },
{
    match status_from_request(new_status) {
        Ok(st) => Ok(st),
        Err(message) => Err(refusal_response(message)),
    }
}

/// The filters of a listing query: none where it names no condition.
pub fn filters_from_query(status: Option<String>, method: Option<String>, transaction_id: Option<String>) -> (r: Option<PaymentFilters>)
    ensures
        (status is None && method is None && transaction_id is None) ==> r is None,
        !(status is None && method is None && transaction_id is None) ==> (r matches Some(f) && f@ == (PaymentFiltersView {
            status: opt_text(status),
            method: opt_text(method),
            transaction_id: opt_text(transaction_id),
        })),
{
    if status.is_none() && method.is_none() && transaction_id.is_none() {
        None
    } else {
        Some(PaymentFilters { status, method, transaction_id })
    }
}

/// The status code and body answering a create request.
pub fn create_payment_response(r: Result<Payment, PaymentError>) -> (resp: (u16, ApiResponse<Payment>))
    ensures
        match r {
            Ok(p) => resp.0 == 201 && resp.1.success && resp.1.message@ == "Payment created successfully"@ && resp.1.data == Some(p),
            Err(e) => resp.0 == 500 && answers_without_data(resp.1, false, "Failed to create payment: "@ + error_debug(e)),
        },
{
    match r {
        Ok(p) => (201, answer(true, String::from_str("Payment created successfully"), Some(p))),
        Err(e) => (500, answer(false, String::from_str("Failed to create payment: ").concat(describe_error(&e).as_str()), None)),
    }
}

/// The status code and body answering a request for one payment.
pub fn get_payment_response(r: Result<Payment, PaymentError>) -> (resp: (u16, ApiResponse<Payment>))
    ensures
        match r {
            Ok(p) => resp.0 == 200 && resp.1.success && resp.1.message@ == "Payment retrieved successfully"@ && resp.1.data == Some(p),
            Err(PaymentError::NotFound(m)) => resp.0 == 404 && answers_without_data(resp.1, false, m@),
            Err(e) => resp.0 == 500 && answers_without_data(resp.1, false, "Failed to retrieve payment: "@ + error_debug(e)),
        },
{
    match r {
        Ok(p) => (200, answer(true, String::from_str("Payment retrieved successfully"), Some(p))),
        Err(PaymentError::NotFound(m)) => (404, answer(false, m, None)),
        Err(e) => (500, answer(false, String::from_str("Failed to retrieve payment: ").concat(describe_error(&e).as_str()), None)),
    }
}

/// The status code and body answering a listing.
pub fn get_all_payments_response(r: Result<Vec<Payment>, PaymentError>) -> (resp: (u16, ApiResponse<Vec<Payment>>))
    ensures
        match r {
            Ok(v) => resp.0 == 200 && resp.1.success && resp.1.message@ == "Successfully retrieved "@ + decimal(v.len() as nat) + " payments"@ && resp.1.data == Some(v),
            Err(e) => resp.0 == 500 && answers_without_data(resp.1, false, "Failed to retrieve payments: "@ + error_debug(e)),
        },
{
    match r {
        Ok(v) => {
            let message = String::from_str("Successfully retrieved ").concat(decimal_text(v.len()).as_str()).concat(" payments");
            (200, answer(true, message, Some(v)))
        },
        Err(e) => (500, answer(false, String::from_str("Failed to retrieve payments: ").concat(describe_error(&e).as_str()), None)),
    }
}

/// The status code and body answering a status change.
pub fn update_payment_status_response(r: Result<Payment, PaymentError>) -> (resp: (u16, ApiResponse<Payment>))
    ensures
        match r {
            Ok(p) => resp.0 == 200 && resp.1.success && resp.1.message@ == "Payment status updated successfully"@ && resp.1.data == Some(p),
            Err(PaymentError::NotFound(m)) => resp.0 == 404 && answers_without_data(resp.1, false, m@),
            Err(e) => resp.0 == 500 && answers_without_data(resp.1, false, "Failed to update payment status: "@ + error_debug(e)),
        },
{
    match r {
        Ok(p) => (200, answer(true, String::from_str("Payment status updated successfully"), Some(p))),
        Err(PaymentError::NotFound(m)) => (404, answer(false, m, None)),
        Err(e) => (500, answer(false, String::from_str("Failed to update payment status: ").concat(describe_error(&e).as_str()), None)),
    }
}

/// The status code and body answering a new installment.
pub fn add_installment_response(r: Result<Payment, PaymentError>) -> (resp: (u16, ApiResponse<Payment>))
    ensures
        match r {
            Ok(p) => resp.0 == 200 && resp.1.success && resp.1.message@ == "Installment added successfully"@ && resp.1.data == Some(p),
            Err(PaymentError::NotFound(m)) => resp.0 == 404 && answers_without_data(resp.1, false, m@),
            Err(PaymentError::InvalidInput(m)) => resp.0 == 400 && answers_without_data(resp.1, false, m@),
            Err(e) => resp.0 == 500 && answers_without_data(resp.1, false, "Failed to add installment: "@ + error_debug(e)),
        },
{
    match r {
        Ok(p) => (200, answer(true, String::from_str("Installment added successfully"), Some(p))),
        Err(PaymentError::NotFound(m)) => (404, answer(false, m, None)),
        Err(PaymentError::InvalidInput(m)) => (400, answer(false, m, None)),
        Err(e) => (500, answer(false, String::from_str("Failed to add installment: ").concat(describe_error(&e).as_str()), None)),
    }
}

/// The status code and body answering a deletion.
pub fn delete_payment_response(r: Result<(), PaymentError>) -> (resp: (u16, ApiResponse<()>))
    ensures
        match r {
            Ok(()) => resp.0 == 200 && answers_without_data(resp.1, true, "Payment deleted successfully"@),
            Err(e) => resp.0 == 500 && answers_without_data(resp.1, false, "Failed to delete payment: "@ + error_debug(e)),
        },
{
    match r {
        Ok(()) => (200, answer(true, String::from_str("Payment deleted successfully"), None)),
        Err(e) => (500, answer(false, String::from_str("Failed to delete payment: ").concat(describe_error(&e).as_str()), None)),
    }
}

} // verus!
