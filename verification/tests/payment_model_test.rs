use buildingstore_be::manajemen_pembayaran::enums::payment_status::PaymentStatus;
use buildingstore_be::manajemen_pembayaran::model::payment::{sum_installments, Installment, Payment, PaymentMethod};
use chrono::Utc;
use uuid::Uuid;

fn now() -> i64 {
    Utc::now().timestamp()
}

#[test]
fn test_payment_method_display() {
    assert_eq!(PaymentMethod::Cash.to_string(), "CASH");
    assert_eq!(PaymentMethod::CreditCard.to_string(), "CREDIT_CARD");
    assert_eq!(PaymentMethod::BankTransfer.to_string(), "BANK_TRANSFER");
    assert_eq!(PaymentMethod::EWallet.to_string(), "E_WALLET");
}

#[test]
fn payment_test_payment_method_equality() {
    let method1 = PaymentMethod::Cash;
    let method2 = PaymentMethod::Cash;
    let method3 = PaymentMethod::CreditCard;

    assert_eq!(method1, method2);
    assert_ne!(method1, method3);
}

#[test]
fn payment_test_payment_status_from_string() {
    let paid_status = PaymentStatus::from_string("LUNAS");
    assert!(paid_status.is_some());
    assert_eq!(paid_status.unwrap(), PaymentStatus::Paid);

    let installment_status = PaymentStatus::from_string("CICILAN");
    assert!(installment_status.is_some());
    assert_eq!(installment_status.unwrap(), PaymentStatus::Installment);

    let lowercase_status = PaymentStatus::from_string("lunas");
    assert!(lowercase_status.is_some());
    assert_eq!(lowercase_status.unwrap(), PaymentStatus::Paid);

    let invalid_status = PaymentStatus::from_string("INVALID");
    assert!(invalid_status.is_none());
}

#[test]
fn payment_test_payment_status_to_string() {
    assert_eq!(PaymentStatus::Paid.to_string(), "LUNAS");
    assert_eq!(PaymentStatus::Installment.to_string(), "CICILAN");
}

#[test]
fn payment_test_create_payment() {
    let payment_id = format!("PMT-{}", Uuid::new_v4());
    let transaction_id = format!("TRX-{}", Uuid::new_v4());

    let payment = Payment {
        id: payment_id.clone(),
        transaction_id: transaction_id.clone(),
        amount: 1000,
        method: PaymentMethod::Cash,
        status: PaymentStatus::Paid,
        payment_date: now(),
        installments: Vec::new(),
        due_date: None,
    };

    assert_eq!(payment.id, payment_id);
    assert_eq!(payment.transaction_id, transaction_id);
    assert_eq!(payment.amount, 1000);
    assert_eq!(payment.method, PaymentMethod::Cash);
    assert_eq!(payment.status, PaymentStatus::Paid);
    assert!(payment.installments.is_empty());
}

#[test]
fn test_create_payment_with_due_date() {
    let payment_id = format!("PMT-{}", Uuid::new_v4());
    let transaction_id = format!("TRX-{}", Uuid::new_v4());
    let due_date = now() + 30 * 86400;

    let payment = Payment {
        id: payment_id.clone(),
        transaction_id: transaction_id.clone(),
        amount: 2000,
        method: PaymentMethod::CreditCard,
        status: PaymentStatus::Installment,
        payment_date: now(),
        installments: Vec::new(),
        due_date: Some(due_date),
    };

    assert_eq!(payment.id, payment_id);
    assert_eq!(payment.transaction_id, transaction_id);
    assert_eq!(payment.amount, 2000);
    assert_eq!(payment.method, PaymentMethod::CreditCard);
    assert_eq!(payment.status, PaymentStatus::Installment);
    assert!(payment.due_date.is_some());
}

#[test]
fn payment_test_add_installment() {
    let payment_id = format!("PMT-{}", Uuid::new_v4());

    let mut payment = Payment {
        id: payment_id.clone(),
        transaction_id: format!("TRX-{}", Uuid::new_v4()),
        amount: 1000,
        method: PaymentMethod::Cash,
        status: PaymentStatus::Installment,
        payment_date: now(),
        installments: Vec::new(),
        due_date: None,
    };

    let installment = Installment {
        id: format!("INST-{}", Uuid::new_v4()),
        payment_id: payment_id.clone(),
        amount: 500,
        payment_date: now(),
    };

    payment.installments.push(installment);

    assert_eq!(payment.installments.len(), 1);
    assert_eq!(payment.installments[0].amount, 500);
    assert_eq!(payment.installments[0].payment_id, payment_id);
}

#[test]
fn test_add_multiple_installments() {
    let payment_id = format!("PMT-{}", Uuid::new_v4());

    let mut payment = Payment {
        id: payment_id.clone(),
        transaction_id: format!("TRX-{}", Uuid::new_v4()),
        amount: 1000,
        method: PaymentMethod::BankTransfer,
        status: PaymentStatus::Installment,
        payment_date: now(),
        installments: Vec::new(),
        due_date: None,
    };

    let installment1 = Installment {
        id: format!("INST-{}", Uuid::new_v4()),
        payment_id: payment_id.clone(),
        amount: 300,
        payment_date: now(),
    };

    let installment2 = Installment {
        id: format!("INST-{}", Uuid::new_v4()),
        payment_id: payment_id.clone(),
        amount: 400,
        payment_date: now() + 86400,
    };

    payment.installments.push(installment1);
    payment.installments.push(installment2);

    assert_eq!(payment.installments.len(), 2);

    let total_installments = sum_installments(&payment.installments);
    assert_eq!(total_installments, 700);
}

#[test]
fn payment_test_installment_creation() {
    let payment_id = format!("PMT-{}", Uuid::new_v4());
    let installment_id = format!("INST-{}", Uuid::new_v4());
    let payment_date = now();

    let installment = Installment {
        id: installment_id.clone(),
        payment_id: payment_id.clone(),
        amount: 250,
        payment_date,
    };

    assert_eq!(installment.id, installment_id);
    assert_eq!(installment.payment_id, payment_id);
    assert_eq!(installment.amount, 250);
    assert_eq!(installment.payment_date, payment_date);
}

#[test]
fn sum_of_no_installments_is_zero() {
    assert_eq!(sum_installments(&Vec::new()), 0);
}

#[test]
fn cloned_payment_keeps_every_field() {
    let payment = Payment {
        id: "PMT-1".to_string(),
        transaction_id: "TRX-1".to_string(),
        amount: 1500,
        method: PaymentMethod::EWallet,
        status: PaymentStatus::Installment,
        payment_date: 42,
        installments: vec![Installment {
            id: "INST-1".to_string(),
            payment_id: "PMT-1".to_string(),
            amount: 700,
            payment_date: 43,
        }],
        due_date: Some(99),
    };
    let copy = payment.clone();
    assert_eq!(copy.id, "PMT-1");
    assert_eq!(copy.transaction_id, "TRX-1");
    assert_eq!(copy.amount, 1500);
    assert_eq!(copy.method, PaymentMethod::EWallet);
    assert_eq!(copy.status, PaymentStatus::Installment);
    assert_eq!(copy.payment_date, 42);
    assert_eq!(copy.installments.len(), 1);
    assert_eq!(copy.installments[0].id, "INST-1");
    assert_eq!(copy.installments[0].amount, 700);
    assert_eq!(copy.due_date, Some(99));
}
