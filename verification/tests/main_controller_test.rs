use buildingstore_be::manajemen_pembayaran::enums::payment_status::PaymentStatus;
use buildingstore_be::manajemen_pembayaran::main::controller::payment_controller::{
    AddInstallmentRequest, CreatePaymentRequest, PaymentController, PaymentFilterRequest, UpdatePaymentStatusRequest,
};
use buildingstore_be::manajemen_pembayaran::model::payment::PaymentMethod;
use buildingstore_be::manajemen_pembayaran::patterns::observer::PaymentSubject;
use buildingstore_be::manajemen_pembayaran::repository::payment_repository_impl::PaymentRepositoryImpl;
use buildingstore_be::manajemen_pembayaran::main::service::payment_service_impl::PaymentServiceImpl;

fn controller() -> PaymentController {
    PaymentController::new(PaymentServiceImpl::new(PaymentRepositoryImpl::new(), PaymentSubject::new()))
}

fn create(c: &mut PaymentController, tx: &str, amount: i64, method: &str) -> buildingstore_be::manajemen_pembayaran::main::controller::payment_controller::ApiResponse<buildingstore_be::manajemen_pembayaran::model::payment::Payment> {
    c.create_payment(CreatePaymentRequest { transaction_id: tx.to_string(), amount, method: method.to_string() })
}

#[test]
fn controller_creates_and_reads_back() {
    let mut c = controller();
    let resp = create(&mut c, "TRX-1", 900, "e_wallet");
    assert!(resp.success);
    assert!(resp.message.is_none());
    let p = resp.data.unwrap();
    assert_eq!(p.method, PaymentMethod::EWallet);
    assert!(p.id.starts_with("EWALLET-"));

    let got = c.get_payment(&p.id);
    assert!(got.success);
    assert_eq!(got.data.unwrap().transaction_id, "TRX-1");

    let by_tx = c.get_payment_by_transaction("TRX-1");
    assert_eq!(by_tx.data.unwrap().id, p.id);

    let missing = c.get_payment("PMT-X");
    assert!(!missing.success);
    assert_eq!(missing.message.unwrap(), "Pembayaran dengan ID PMT-X tidak ditemukan");
    let missing_tx = c.get_payment_by_transaction("TRX-X");
    assert_eq!(missing_tx.message.unwrap(), "Pembayaran untuk transaksi TRX-X tidak ditemukan");
}

#[test]
fn controller_refuses_unknown_method_and_status() {
    let mut c = controller();
    let resp = create(&mut c, "TRX-1", 900, "BITCOIN");
    assert!(!resp.success);
    assert!(resp.data.is_none());
    assert_eq!(resp.message.unwrap(), "Metode pembayaran tidak valid");

    let p = create(&mut c, "TRX-2", 900, "CASH").data.unwrap();
    let resp = c.update_payment_status(UpdatePaymentStatusRequest {
        payment_id: p.id.clone(),
        new_status: "PENDING".to_string(),
        additional_amount: None,
    });
    assert!(!resp.success);
    assert_eq!(resp.message.unwrap(), "Status pembayaran tidak valid");
}

#[test]
fn controller_installments_and_deletion() {
    let mut c = controller();
    let p = create(&mut c, "TRX-3", 1000, "CREDIT_CARD").data.unwrap();
    let resp = c.update_payment_status(UpdatePaymentStatusRequest {
        payment_id: p.id.clone(),
        new_status: "cicilan".to_string(),
        additional_amount: Some(300),
    });
    assert_eq!(resp.data.unwrap().status, PaymentStatus::Installment);

    let resp = c.add_installment(AddInstallmentRequest { payment_id: p.id.clone(), amount: 700 });
    let settled = resp.data.unwrap();
    assert_eq!(settled.installments.len(), 2);
    assert_eq!(settled.status, PaymentStatus::Paid);

    let del = c.delete_payment(&p.id);
    assert!(!del.success);
    assert_eq!(del.message.unwrap(), "Tidak dapat menghapus pembayaran dengan status LUNAS");

    let q = create(&mut c, "TRX-4", 50, "CASH").data.unwrap();
    c.update_payment_status(UpdatePaymentStatusRequest {
        payment_id: q.id.clone(),
        new_status: "CICILAN".to_string(),
        additional_amount: None,
    });
    let del = c.delete_payment(&q.id);
    assert!(del.success);
    assert_eq!(del.data, Some(()));
    assert_eq!(del.message.unwrap(), "Pembayaran berhasil dihapus");
    assert!(!c.get_payment(&q.id).success);
}

#[test]
fn controller_listing_filters() {
    let mut c = controller();
    create(&mut c, "TRX-5", 10, "CASH");
    let p = create(&mut c, "TRX-6", 20, "BANK_TRANSFER").data.unwrap();
    c.update_payment_status(UpdatePaymentStatusRequest {
        payment_id: p.id.clone(),
        new_status: "CICILAN".to_string(),
        additional_amount: None,
    });
    let all = c.get_all_payments(None).data.unwrap();
    assert_eq!(all.len(), 2);
    let empty_filter = c.get_all_payments(Some(PaymentFilterRequest { status: None, method: None })).data.unwrap();
    assert_eq!(empty_filter.len(), 2);
    let open = c
        .get_all_payments(Some(PaymentFilterRequest { status: Some("CICILAN".to_string()), method: None }))
        .data
        .unwrap();
    assert_eq!(open.len(), 1);
    assert_eq!(open[0].id, p.id);
    let bank = c
        .get_all_payments(Some(PaymentFilterRequest { status: None, method: Some("banktransfer".to_string()) }))
        .data
        .unwrap();
    assert_eq!(bank.len(), 1);
    assert_eq!(c.take_notifications().len(), 0);
}
