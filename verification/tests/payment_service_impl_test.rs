use buildingstore_be::manajemen_pembayaran::enums::payment_status::PaymentStatus;
use buildingstore_be::manajemen_pembayaran::model::payment::PaymentMethod;
use buildingstore_be::manajemen_pembayaran::patterns::observer::{
    AnyPaymentObserver, CustomerObserver, InventoryObserver, PaymentSubject, TransactionObserver,
};
use buildingstore_be::manajemen_pembayaran::repository::payment_repository::PaymentFilters;
use buildingstore_be::manajemen_pembayaran::repository::payment_repository_impl::PaymentRepositoryImpl;
use buildingstore_be::manajemen_pembayaran::main::service::payment_service_impl::PaymentServiceImpl as CommandPaymentService;
use buildingstore_be::manajemen_pembayaran::service::payment_service_impl::PaymentServiceImpl;
use uuid::Uuid;

fn plain_service() -> PaymentServiceImpl {
    PaymentServiceImpl::new(PaymentRepositoryImpl::new())
}

fn setup_payment_service() -> CommandPaymentService {
    let mut subject = PaymentSubject::new();
    subject.attach(AnyPaymentObserver::Transaction(TransactionObserver));
    subject.attach(AnyPaymentObserver::Inventory(InventoryObserver));
    subject.attach(AnyPaymentObserver::Customer(CustomerObserver));
    CommandPaymentService::new(PaymentRepositoryImpl::new(), subject)
}

#[test]
fn payment_service_impl_test_create_payment() {
    let mut service = plain_service();

    let transaction_id = format!("TRX-{}", Uuid::new_v4());

    let result = service.create_payment(transaction_id.clone(), 1000, PaymentMethod::Cash);

    assert!(result.is_ok());
    let payment = result.unwrap();
    assert_eq!(payment.transaction_id, transaction_id);
    assert_eq!(payment.amount, 1000);
    assert_eq!(payment.method, PaymentMethod::Cash);
    assert_eq!(payment.status, PaymentStatus::Paid);
}

#[test]
fn test_create_payment_with_existing_transaction() {
    let mut service = plain_service();

    let transaction_id = format!("TRX-{}", Uuid::new_v4());

    service.create_payment(transaction_id.clone(), 1000, PaymentMethod::Cash).unwrap();

    let result = service.create_payment(transaction_id.clone(), 2000, PaymentMethod::CreditCard);

    assert!(result.is_err());
}

#[test]
fn test_update_payment_status() {
    let mut service = plain_service();

    let transaction_id = format!("TRX-{}", Uuid::new_v4());
    let payment = service.create_payment(transaction_id.clone(), 1000, PaymentMethod::Cash).unwrap();

    let result = service.update_payment_status(payment.id.clone(), PaymentStatus::Installment, Some(500));

    assert!(result.is_ok());
    let updated_payment = result.unwrap();
    assert_eq!(updated_payment.status, PaymentStatus::Installment);
}

#[test]
fn payment_service_impl_test_add_installment() {
    let mut service = plain_service();

    let transaction_id = format!("TRX-{}", Uuid::new_v4());
    let payment = service.create_payment(transaction_id.clone(), 1000, PaymentMethod::Cash).unwrap();

    let payment = service.update_payment_status(payment.id.clone(), PaymentStatus::Installment, None).unwrap();

    let result = service.add_installment(&payment.id, 400);

    assert!(result.is_ok());
    let payment_with_installment = result.unwrap();
    assert_eq!(payment_with_installment.installments.len(), 1);

    let result = service.add_installment(&payment.id, 600);

    assert!(result.is_ok());
    let completed_payment = result.unwrap();
    assert_eq!(completed_payment.installments.len(), 2);
    assert_eq!(completed_payment.status, PaymentStatus::Paid);

    let result = service.add_installment(&payment.id, 100);

    assert!(result.is_err());
}

#[test]
fn test_get_payment() {
    let mut service = plain_service();

    let transaction_id = format!("TRX-{}", Uuid::new_v4());
    let payment = service.create_payment(transaction_id.clone(), 1000, PaymentMethod::Cash).unwrap();

    let result = service.get_payment(&payment.id);

    assert!(result.is_some());
    let found_payment = result.unwrap();
    assert_eq!(found_payment.id, payment.id);

    let result = service.get_payment_by_transaction(&transaction_id);

    assert!(result.is_some());
    let found_payment = result.unwrap();
    assert_eq!(found_payment.transaction_id, transaction_id);
}

#[test]
fn test_get_all_payments() {
    let mut service = plain_service();

    service.create_payment(format!("TRX-1-{}", Uuid::new_v4()), 1000, PaymentMethod::Cash).unwrap();

    let p2 = service.create_payment(format!("TRX-2-{}", Uuid::new_v4()), 2000, PaymentMethod::CreditCard).unwrap();
    service.update_payment_status(p2.id, PaymentStatus::Installment, None).unwrap();

    let all_payments = service.get_all_payments(None);

    assert_eq!(all_payments.len(), 2);

    let filters = PaymentFilters { status: Some("LUNAS".to_string()), method: None, transaction_id: None };
    let paid_payments = service.get_all_payments(Some(filters));

    assert_eq!(paid_payments.len(), 1);
    assert_eq!(paid_payments[0].status, PaymentStatus::Paid);
}

#[test]
fn payment_service_impl_test_delete_payment() {
    let mut service = plain_service();

    let transaction_id = format!("TRX-{}", Uuid::new_v4());
    let payment = service.create_payment(transaction_id.clone(), 1000, PaymentMethod::Cash).unwrap();
    let payment = service.update_payment_status(payment.id.clone(), PaymentStatus::Installment, None).unwrap();

    let result = service.delete_payment(payment.id.clone());

    assert!(result.is_ok());
    assert!(service.get_payment(&payment.id).is_none());
}

#[test]
fn payment_service_impl_test_delete_paid_payment() {
    let mut service = plain_service();

    let transaction_id = format!("TRX-{}", Uuid::new_v4());
    let payment = service.create_payment(transaction_id.clone(), 1000, PaymentMethod::Cash).unwrap();

    let result = service.delete_payment(payment.id.clone());

    assert!(result.is_err());
    assert!(service.get_payment(&payment.id).is_some());
}

#[test]
fn test_cash_payment_lifecycle() {
    let mut service = setup_payment_service();
    let transaction_id = format!("TRX-CASH-{}", Uuid::new_v4());

    let result = service.create_payment(transaction_id.clone(), 1000, PaymentMethod::Cash);
    assert!(result.is_ok());
    let payment = result.unwrap();
    assert_eq!(payment.transaction_id, transaction_id);
    assert_eq!(payment.method, PaymentMethod::Cash);
    assert_eq!(payment.status, PaymentStatus::Paid);

    let found = service.get_payment_by_transaction(&transaction_id);
    assert!(found.is_some());
    assert_eq!(found.unwrap().id, payment.id);
}

#[test]
fn test_installment_payment_lifecycle() {
    let mut service = setup_payment_service();
    let transaction_id = format!("TRX-INST-{}", Uuid::new_v4());

    let result = service.create_payment(transaction_id.clone(), 3000, PaymentMethod::CreditCard);
    assert!(result.is_ok());
    let payment = result.unwrap();

    let result = service.update_payment_status(payment.id.clone(), PaymentStatus::Installment, Some(1000));
    assert!(result.is_ok());
    let payment = result.unwrap();
    assert_eq!(payment.status, PaymentStatus::Installment);
    assert_eq!(payment.installments.len(), 1);
    assert_eq!(payment.installments[0].amount, 1000);

    let result = service.add_installment(&payment.id, 1000);
    assert!(result.is_ok());
    let payment = result.unwrap();
    assert_eq!(payment.installments.len(), 2);
    assert_eq!(payment.status, PaymentStatus::Installment);

    let result = service.add_installment(&payment.id, 1000);
    assert!(result.is_ok());
    let payment = result.unwrap();
    assert_eq!(payment.installments.len(), 3);
    assert_eq!(payment.status, PaymentStatus::Paid);

    let result = service.add_installment(&payment.id, 500);
    assert!(result.is_err());
}

#[test]
fn test_bank_transfer_payment() {
    let mut service = setup_payment_service();
    let transaction_id = format!("TRX-BANK-{}", Uuid::new_v4());

    let result = service.create_payment(transaction_id.clone(), 5000, PaymentMethod::BankTransfer);
    assert!(result.is_ok());
    let payment = result.unwrap();
    assert_eq!(payment.method, PaymentMethod::BankTransfer);

    assert!(payment.id.starts_with("BANK-"));
}

#[test]
fn test_ewallet_payment() {
    let mut service = setup_payment_service();
    let transaction_id = format!("TRX-EWALLET-{}", Uuid::new_v4());

    let result = service.create_payment(transaction_id.clone(), 2500, PaymentMethod::EWallet);
    assert!(result.is_ok());
    let payment = result.unwrap();
    assert_eq!(payment.method, PaymentMethod::EWallet);

    assert!(payment.id.starts_with("EWALLET-"));
}

#[test]
fn payment_functional_test_test_delete_paid_payment() {
    let mut service = setup_payment_service();
    let transaction_id = format!("TRX-DELETE-{}", Uuid::new_v4());

    let payment = service.create_payment(transaction_id.clone(), 1000, PaymentMethod::Cash).unwrap();

    let result = service.delete_payment(payment.id.clone());
    assert!(result.is_err());

    let found = service.get_payment(&payment.id);
    assert!(found.is_some());
}

#[test]
fn test_delete_installment_payment() {
    let mut service = setup_payment_service();
    let transaction_id = format!("TRX-DELETE-INST-{}", Uuid::new_v4());

    let payment = service.create_payment(transaction_id.clone(), 1000, PaymentMethod::Cash).unwrap();
    let payment = service.update_payment_status(payment.id.clone(), PaymentStatus::Installment, None).unwrap();

    let result = service.delete_payment(payment.id.clone());

    assert!(result.is_ok());

    let found = service.get_payment(&payment.id);
    assert!(found.is_none());
}

#[test]
fn every_change_is_told_to_each_observer_in_order() {
    let mut service = setup_payment_service();
    let p = service.create_payment("TRX-A".to_string(), 100, PaymentMethod::Cash).unwrap();
    service.update_payment_status(p.id.clone(), PaymentStatus::Installment, None).unwrap();
    let notes = service.take_notifications();
    assert_eq!(notes.len(), 6);
    assert_eq!(notes[0], "Observer: Memperbarui status transaksi untuk ID TRX-A");
    assert_eq!(notes[1], "Observer: Memperbarui stok untuk transaksi ID TRX-A");
    assert_eq!(notes[2], "Observer: Memperbarui riwayat pelanggan untuk transaksi ID TRX-A");
    assert_eq!(notes[3], notes[0]);
    assert!(service.take_notifications().is_empty());
    service.delete_payment(p.id.clone()).unwrap();
    assert!(service.take_notifications().is_empty());
}

#[test]
fn command_refusals_carry_their_messages() {
    let mut service = CommandPaymentService::new(PaymentRepositoryImpl::new(), PaymentSubject::new());
    let p = service.create_payment("TRX-B".to_string(), 100, PaymentMethod::Cash).unwrap();
    assert_eq!(
        service.create_payment("TRX-B".to_string(), 5, PaymentMethod::Cash).unwrap_err(),
        "Transaksi TRX-B sudah memiliki pembayaran"
    );
    assert_eq!(
        service.create_payment("TRX-C".to_string(), 0, PaymentMethod::BankTransfer).unwrap_err(),
        "Jumlah pembayaran transfer bank harus lebih dari 0"
    );
    assert_eq!(
        service.delete_payment(p.id.clone()).unwrap_err(),
        "Tidak dapat menghapus pembayaran dengan status LUNAS"
    );
    assert_eq!(
        service.add_installment(&p.id, 10).unwrap_err(),
        "Pembayaran sudah lunas, tidak dapat menambahkan pembayaran lagi"
    );
    assert_eq!(
        service.update_payment_status(p.id.clone(), PaymentStatus::Installment, Some(0)).unwrap_err(),
        "Jumlah cicilan harus lebih dari 0"
    );
    let u = service.update_payment_status(p.id.clone(), PaymentStatus::Installment, Some(30)).unwrap();
    assert_eq!(u.amount, 100);
    assert!(u.installments[0].id.starts_with("INST-"));
    assert_eq!(
        service.update_payment_status("NOPE".to_string(), PaymentStatus::Paid, None).unwrap_err(),
        "Pembayaran dengan ID NOPE tidak ditemukan"
    );
    assert_eq!(service.add_installment("NOPE", 10).unwrap_err(), "Pembayaran dengan ID NOPE tidak ditemukan");
    assert_eq!(service.delete_payment("NOPE".to_string()).unwrap_err(), "Pembayaran dengan ID NOPE tidak ditemukan");
}

#[test]
fn direct_refusals_carry_their_messages() {
    let mut service = plain_service();
    let p = service.create_payment("TRX-B".to_string(), 100, PaymentMethod::Cash).unwrap();
    assert!(p.id.starts_with("CASH-"));
    assert_eq!(
        service.create_payment("TRX-B".to_string(), 5, PaymentMethod::Cash).unwrap_err(),
        "Transaksi TRX-B sudah memiliki pembayaran"
    );
    assert_eq!(
        service.create_payment("TRX-C".to_string(), 0, PaymentMethod::BankTransfer).unwrap_err(),
        "Jumlah pembayaran harus lebih dari 0"
    );
    assert_eq!(
        service.delete_payment(p.id.clone()).unwrap_err(),
        format!("Pembayaran dengan ID {} sudah lunas dan tidak dapat dihapus", p.id)
    );
    assert_eq!(service.add_installment(&p.id, 10).unwrap_err(), format!("Pembayaran dengan ID {} bukan cicilan", p.id));
    assert_eq!(service.add_installment(&p.id, 0).unwrap_err(), "Jumlah cicilan harus lebih dari 0");
    assert_eq!(
        service.update_payment_status(p.id.clone(), PaymentStatus::Installment, Some(0)).unwrap_err(),
        "Jumlah tambahan harus lebih dari 0"
    );
    assert_eq!(
        service.update_payment_status("NOPE".to_string(), PaymentStatus::Paid, None).unwrap_err(),
        "Pembayaran dengan ID NOPE tidak ditemukan"
    );
    assert_eq!(service.add_installment("NOPE", 10).unwrap_err(), "Pembayaran dengan ID NOPE tidak ditemukan");
    assert_eq!(service.delete_payment("NOPE".to_string()).unwrap_err(), "Pembayaran dengan ID NOPE tidak ditemukan");
}

#[test]
fn direct_additional_amount_grows_the_payment() {
    let mut service = plain_service();
    let p = service.create_payment("TRX-D".to_string(), 1000, PaymentMethod::EWallet).unwrap();
    let u = service.update_payment_status(p.id.clone(), PaymentStatus::Installment, Some(500)).unwrap();
    assert_eq!(u.amount, 1500);
    assert_eq!(u.installments.len(), 1);
    assert_eq!(u.installments[0].amount, 500);
    assert_eq!(u.installments[0].payment_id, p.id);
    assert_eq!(u.installments[0].id.len(), 36);
    let v = service.update_payment_status(p.id.clone(), PaymentStatus::Paid, Some(100)).unwrap();
    assert_eq!(v.amount, 1600);
    assert_eq!(v.installments.len(), 1);
    assert_eq!(v.status, PaymentStatus::Paid);
    let w = service.update_payment_status(p.id.clone(), PaymentStatus::Installment, None).unwrap();
    assert_eq!(w.amount, 1600);
    let x = service.add_installment(&p.id, 1100).unwrap();
    assert_eq!(x.status, PaymentStatus::Paid);
    assert_eq!(x.installments[1].id.len(), 36);
    assert_eq!(service.get_payment(&p.id).unwrap().status, PaymentStatus::Paid);
}
