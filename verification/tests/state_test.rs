use buildingstore_be::manajemen_pembayaran::enums::payment_status::PaymentStatus;
use buildingstore_be::manajemen_pembayaran::model::payment::{Payment, PaymentMethod};
use buildingstore_be::manajemen_pembayaran::patterns::factory::PaymentStateFactory;
use buildingstore_be::manajemen_pembayaran::patterns::state::{InstallmentState, PaidState, PaymentState};
use chrono::Utc;
use uuid::Uuid;

fn new_payment(status: PaymentStatus) -> Payment {
    Payment {
        id: format!("PMT-{}", Uuid::new_v4()),
        transaction_id: format!("TRX-{}", Uuid::new_v4()),
        amount: 1000,
        method: PaymentMethod::Cash,
        status,
        payment_date: Utc::now().timestamp(),
        installments: Vec::new(),
        due_date: None,
    }
}

#[test]
fn state_test_paid_state_process_payment() {
    let state = PaidState;
    let mut payment = new_payment(PaymentStatus::Paid);

    let result = state.process_payment(&mut payment, 500);

    assert!(result.is_err());
    assert_eq!(payment.installments.len(), 0);
}

#[test]
fn state_test_installment_state_process_payment() {
    let state = InstallmentState;
    let mut payment = new_payment(PaymentStatus::Installment);

    let result = state.process_payment(&mut payment, 400);

    assert!(result.is_ok());
    assert_eq!(payment.installments.len(), 1);
    assert_eq!(payment.installments[0].amount, 400);
    assert_eq!(payment.status, PaymentStatus::Installment);

    let result = state.process_payment(&mut payment, 600);

    assert!(result.is_ok());
    assert_eq!(payment.installments.len(), 2);
    assert_eq!(payment.status, PaymentStatus::Paid);
}

#[test]
fn state_test_installment_state_invalid_amount() {
    let state = InstallmentState;
    let mut payment = new_payment(PaymentStatus::Installment);

    let result = state.process_payment(&mut payment, -100);

    assert!(result.is_err());
    assert_eq!(payment.installments.len(), 0);
}

#[test]
fn state_test_state_can_delete() {
    let paid_state = PaidState;
    assert!(!paid_state.can_delete());

    let installment_state = InstallmentState;
    assert!(installment_state.can_delete());
}

#[test]
fn state_test_test_paid_state_process_payment() {
    let state = PaidState;
    let mut payment = new_payment(PaymentStatus::Paid);

    let result = state.process_payment(&mut payment, 500);

    assert!(result.is_err());
    assert_eq!(payment.installments.len(), 0);
}

#[test]
fn state_test_test_installment_state_process_payment() {
    let state = InstallmentState;
    let mut payment = new_payment(PaymentStatus::Installment);

    let result = state.process_payment(&mut payment, 400);

    assert!(result.is_ok());
    assert_eq!(payment.installments.len(), 1);
    assert_eq!(payment.installments[0].amount, 400);
    assert_eq!(payment.status, PaymentStatus::Installment);

    let result = state.process_payment(&mut payment, 600);

    assert!(result.is_ok());
    assert_eq!(payment.installments.len(), 2);
    assert_eq!(payment.status, PaymentStatus::Paid);
}

#[test]
fn state_test_test_installment_state_invalid_amount() {
    let state = InstallmentState;
    let mut payment = new_payment(PaymentStatus::Installment);

    let result = state.process_payment(&mut payment, -100);

    assert!(result.is_err());
    assert_eq!(payment.installments.len(), 0);
}

#[test]
fn state_test_test_state_can_delete() {
    let paid_state = PaidState;
    assert!(!paid_state.can_delete());

    let installment_state = InstallmentState;
    assert!(installment_state.can_delete());
}

#[test]
fn refusal_messages_of_states() {
    let mut payment = new_payment(PaymentStatus::Paid);
    assert_eq!(
        PaidState.process_payment(&mut payment, 10).unwrap_err(),
        "Pembayaran sudah lunas, tidak dapat menambahkan pembayaran lagi"
    );
    let mut payment = new_payment(PaymentStatus::Installment);
    assert_eq!(
        InstallmentState.process_payment(&mut payment, 0).unwrap_err(),
        "Jumlah cicilan harus lebih dari 0"
    );
    assert_eq!(PaidState.get_name(), "LUNAS");
    assert_eq!(InstallmentState.get_name(), "CICILAN");
}

#[test]
fn installment_settles_exactly_at_amount() {
    let state = InstallmentState;
    let mut payment = new_payment(PaymentStatus::Installment);
    assert!(state.process_payment(&mut payment, 999).is_ok());
    assert_eq!(payment.status, PaymentStatus::Installment);
    assert!(state.process_payment(&mut payment, 1).is_ok());
    assert_eq!(payment.status, PaymentStatus::Paid);
    assert!(payment.installments[1].id.starts_with("INST-"));
    assert_eq!(payment.installments[1].payment_id, payment.id);
}

#[test]
fn state_factory_follows_status() {
    assert!(!PaymentStateFactory::create(&PaymentStatus::Paid).can_delete());
    assert!(PaymentStateFactory::create(&PaymentStatus::Installment).can_delete());
    assert_eq!(PaymentStateFactory::create(&PaymentStatus::Installment).get_name(), "CICILAN");
}
