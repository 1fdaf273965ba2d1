use buildingstore_be::manajemen_pembayaran::enums::payment_status::PaymentStatus;
use buildingstore_be::manajemen_pembayaran::model::payment::{Payment, PaymentMethod};
use buildingstore_be::manajemen_pembayaran::repository::payment_repository::PaymentFilters;
use buildingstore_be::manajemen_pembayaran::repository::payment_repository_impl::PaymentRepositoryImpl;
use chrono::Utc;
use uuid::Uuid;

fn payment(id: &str, tx: &str, amount: i64, method: PaymentMethod, status: PaymentStatus) -> Payment {
    Payment {
        id: id.to_string(),
        transaction_id: tx.to_string(),
        amount,
        method,
        status,
        payment_date: Utc::now().timestamp(),
        installments: Vec::new(),
        due_date: None,
    }
}

fn status_filter(s: &str) -> Option<PaymentFilters> {
    Some(PaymentFilters { status: Some(s.to_string()), method: None, transaction_id: None })
}

#[test]
fn test_save_payment() {
    let mut repository = PaymentRepositoryImpl::new();
    let payment_id = format!("PMT-{}", Uuid::new_v4());
    let transaction_id = format!("TRX-{}", Uuid::new_v4());

    let p = payment(&payment_id, &transaction_id, 1000, PaymentMethod::Cash, PaymentStatus::Paid);

    let result = repository.save(p.clone());

    assert!(result.is_ok());
    let saved_payment = result.unwrap();
    assert_eq!(saved_payment.id, payment_id);
    assert_eq!(saved_payment.transaction_id, transaction_id);
    assert_eq!(saved_payment.amount, 1000);
}

#[test]
fn test_find_by_id() {
    let mut repository = PaymentRepositoryImpl::new();
    let payment_id = format!("PMT-{}", Uuid::new_v4());

    let p = payment(&payment_id, &format!("TRX-{}", Uuid::new_v4()), 1000, PaymentMethod::Cash, PaymentStatus::Paid);

    repository.save(p.clone()).unwrap();

    let result = repository.find_by_id(&payment_id);

    assert!(result.is_some());
    let found_payment = result.unwrap();
    assert_eq!(found_payment.id, payment_id);
}

#[test]
fn test_find_by_transaction_id() {
    let mut repository = PaymentRepositoryImpl::new();
    let transaction_id = format!("TRX-{}", Uuid::new_v4());

    let p = payment(&format!("PMT-{}", Uuid::new_v4()), &transaction_id, 1000, PaymentMethod::Cash, PaymentStatus::Paid);

    repository.save(p.clone()).unwrap();

    let result = repository.find_by_transaction_id(&transaction_id);

    assert!(result.is_some());
    let found_payment = result.unwrap();
    assert_eq!(found_payment.transaction_id, transaction_id);
}

#[test]
fn test_update_payment() {
    let mut repository = PaymentRepositoryImpl::new();
    let payment_id = format!("PMT-{}", Uuid::new_v4());

    let p = payment(&payment_id, &format!("TRX-{}", Uuid::new_v4()), 1000, PaymentMethod::Cash, PaymentStatus::Installment);

    repository.save(p.clone()).unwrap();

    let mut updated_payment = p.clone();
    updated_payment.status = PaymentStatus::Paid;
    let result = repository.update(updated_payment);

    assert!(result.is_ok());
    let found = repository.find_by_id(&payment_id).unwrap();
    assert_eq!(found.status, PaymentStatus::Paid);
}

#[test]
fn payment_repository_test_test_delete_payment() {
    let mut repository = PaymentRepositoryImpl::new();
    let payment_id = format!("PMT-{}", Uuid::new_v4());

    let p = payment(&payment_id, &format!("TRX-{}", Uuid::new_v4()), 1000, PaymentMethod::Cash, PaymentStatus::Paid);

    repository.save(p.clone()).unwrap();

    let result = repository.delete(&payment_id);

    assert!(result.is_ok());
    assert!(repository.find_by_id(&payment_id).is_none());
}

#[test]
fn test_find_all_with_filters() {
    let mut repository = PaymentRepositoryImpl::new();

    let cash_payment = payment(&format!("PMT-{}", Uuid::new_v4()), &format!("TRX-{}", Uuid::new_v4()), 1000, PaymentMethod::Cash, PaymentStatus::Paid);
    let credit_payment = payment(
        &format!("PMT-{}", Uuid::new_v4()),
        &format!("TRX-{}", Uuid::new_v4()),
        2000,
        PaymentMethod::CreditCard,
        PaymentStatus::Installment,
    );

    repository.save(cash_payment.clone()).unwrap();
    repository.save(credit_payment.clone()).unwrap();

    let status_results = repository.find_all(&status_filter("LUNAS"));

    assert_eq!(status_results.len(), 1);
    assert_eq!(status_results[0].status, PaymentStatus::Paid);

    let all_results = repository.find_all(&None);

    assert_eq!(all_results.len(), 2);
}

#[test]
fn saving_under_a_stored_id_replaces_it() {
    let mut repository = PaymentRepositoryImpl::new();
    repository.save(payment("PMT-1", "TRX-1", 1000, PaymentMethod::Cash, PaymentStatus::Installment)).unwrap();
    repository.save(payment("PMT-1", "TRX-1", 1000, PaymentMethod::Cash, PaymentStatus::Paid)).unwrap();
    assert_eq!(repository.find_all(&None).len(), 1);
    assert_eq!(repository.find_by_id("PMT-1").unwrap().status, PaymentStatus::Paid);
}

#[test]
fn update_and_delete_of_missing_payment_fail() {
    let mut repository = PaymentRepositoryImpl::new();
    let err = repository.update(payment("PMT-9", "TRX-9", 10, PaymentMethod::Cash, PaymentStatus::Paid)).unwrap_err();
    assert_eq!(err, "Pembayaran dengan ID PMT-9 tidak ditemukan");
    assert!(repository.find_by_id("PMT-9").is_none());
    assert_eq!(repository.delete("PMT-9").unwrap_err(), "Pembayaran dengan ID PMT-9 tidak ditemukan");
}

#[test]
fn method_filter_compares_variant_names() {
    let mut repository = PaymentRepositoryImpl::new();
    repository.save(payment("PMT-1", "TRX-1", 10, PaymentMethod::CreditCard, PaymentStatus::Paid)).unwrap();
    repository.save(payment("PMT-2", "TRX-2", 20, PaymentMethod::EWallet, PaymentStatus::Installment)).unwrap();
    let by_method = |m: &str| {
        repository.find_all(&Some(PaymentFilters { status: None, method: Some(m.to_string()), transaction_id: None }))
    };
    assert_eq!(by_method("creditcard").len(), 1);
    assert_eq!(by_method("CreditCard")[0].id, "PMT-1");
    assert_eq!(by_method("CREDIT_CARD").len(), 0);
    assert_eq!(by_method("ewallet")[0].id, "PMT-2");
    let unreadable_status = repository.find_all(&status_filter("PENDING"));
    assert_eq!(unreadable_status.len(), 2);
    let both = repository.find_all(&Some(PaymentFilters {
        status: Some("cicilan".to_string()),
        method: Some("EWALLET".to_string()),
        transaction_id: None,
    }));
    assert_eq!(both.len(), 1);
    assert_eq!(both[0].id, "PMT-2");
}
