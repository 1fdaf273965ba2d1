use buildingstore_be::manajemen_pembayaran::enums::payment_status::PaymentStatus;
use buildingstore_be::manajemen_pembayaran::model::payment::{Payment, PaymentMethod};
use buildingstore_be::manajemen_pembayaran::patterns::observer::{
    AnyPaymentObserver, CustomerObserver, InventoryObserver, PaymentObserver, PaymentSubject, TransactionObserver,
};
use chrono::Utc;
use uuid::Uuid;

fn new_payment() -> Payment {
    Payment {
        id: format!("PMT-{}", Uuid::new_v4()),
        transaction_id: format!("TRX-{}", Uuid::new_v4()),
        amount: 1000,
        method: PaymentMethod::Cash,
        status: PaymentStatus::Paid,
        payment_date: Utc::now().timestamp(),
        installments: Vec::new(),
        due_date: None,
    }
}

#[test]
fn observer_test_observer_notification() {
    let mut subject = PaymentSubject::new();
    subject.attach(AnyPaymentObserver::Transaction(TransactionObserver));

    let payment = new_payment();

    subject.notify(&payment);

    let notes = subject.take_notifications();
    assert_eq!(notes.len(), 1);
    assert_eq!(notes[0], format!("Observer: Memperbarui status transaksi untuk ID {}", payment.transaction_id));
}

#[test]
fn observer_test_multiple_observers() {
    let mut subject = PaymentSubject::new();
    subject.attach(AnyPaymentObserver::Transaction(TransactionObserver));
    subject.attach(AnyPaymentObserver::Transaction(TransactionObserver));

    let payment = new_payment();

    subject.notify(&payment);

    let notes = subject.take_notifications();
    assert_eq!(notes.len(), 2);
    assert_eq!(notes[0], notes[1]);
}

#[test]
fn observer_test_concrete_observers() {
    let mut subject = PaymentSubject::new();

    subject.attach(AnyPaymentObserver::Transaction(TransactionObserver));
    subject.attach(AnyPaymentObserver::Inventory(InventoryObserver));
    subject.attach(AnyPaymentObserver::Customer(CustomerObserver));

    let payment = new_payment();

    subject.notify(&payment);

    assert_eq!(subject.take_notifications().len(), 3);
}

#[test]
fn observer_test_test_observer_notification() {
    let mut subject = PaymentSubject::new();
    subject.attach(AnyPaymentObserver::Transaction(TransactionObserver));

    let payment = new_payment();

    subject.notify(&payment);

    let notes = subject.take_notifications();
    assert_eq!(notes.len(), 1);
    assert_eq!(notes[0], format!("Observer: Memperbarui status transaksi untuk ID {}", payment.transaction_id));
}

#[test]
fn observer_test_test_multiple_observers() {
    let mut subject = PaymentSubject::new();
    subject.attach(AnyPaymentObserver::Transaction(TransactionObserver));
    subject.attach(AnyPaymentObserver::Transaction(TransactionObserver));

    let payment = new_payment();

    subject.notify(&payment);

    let notes = subject.take_notifications();
    assert_eq!(notes.len(), 2);
    assert_eq!(notes[0], notes[1]);
}

#[test]
fn observer_test_test_concrete_observers() {
    let mut subject = PaymentSubject::new();

    subject.attach(AnyPaymentObserver::Transaction(TransactionObserver));
    subject.attach(AnyPaymentObserver::Inventory(InventoryObserver));
    subject.attach(AnyPaymentObserver::Customer(CustomerObserver));

    let payment = new_payment();

    subject.notify(&payment);

    assert_eq!(subject.take_notifications().len(), 3);
}

#[test]
fn each_observer_writes_its_notice() {
    let payment = new_payment();
    let tx = payment.transaction_id.clone();
    assert_eq!(TransactionObserver.payment_updated(&payment), format!("Observer: Memperbarui status transaksi untuk ID {}", tx));
    assert_eq!(InventoryObserver.payment_updated(&payment), format!("Observer: Memperbarui stok untuk transaksi ID {}", tx));
    assert_eq!(
        CustomerObserver.payment_updated(&payment),
        format!("Observer: Memperbarui riwayat pelanggan untuk transaksi ID {}", tx)
    );
}

#[test]
fn subject_without_observers_records_nothing() {
    let mut subject = PaymentSubject::new();
    subject.notify(&new_payment());
    assert!(subject.take_notifications().is_empty());
}
