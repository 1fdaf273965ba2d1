//! Payments, their installments and the ways a payment can be made.
//!
//! Amounts are whole units of currency; points in time are Unix timestamps
//! in seconds.
use vstd::prelude::*;
use vstd::string::*;
use crate::manajemen_pembayaran::enums::payment_status::PaymentStatus;

verus! {

/// How a payment is made.
#[derive(Debug, Clone, Copy, PartialEq, Eq, Structural)]
pub enum PaymentMethod {
    Cash,
    CreditCard,
    BankTransfer,
    EWallet,
}

/// The code a payment method is written with.
pub open spec fn method_code(m: PaymentMethod) -> Seq<char> {
    match m {
        PaymentMethod::Cash => seq!['C', 'A', 'S', 'H'],
        PaymentMethod::CreditCard => seq![
            'C',
            'R',
            'E',
            'D',
            'I',
            'T',
            '_',
            'C',
            'A',
            'R',
            'D',
        ],
        PaymentMethod::BankTransfer => seq![
            'B',
            'A',
            'N',
            'K',
            '_',
            'T',
            'R',
            'A',
            'N',
            'S',
            'F',
            'E',
            'R',
        ],
        PaymentMethod::EWallet => seq!['E', '_', 'W', 'A', 'L', 'L', 'E', 'T'],
    }
}

/// The method whose code is exactly `code`, if any.
pub open spec fn method_of_code(code: Seq<char>) -> Option<PaymentMethod> {
    if code == method_code(PaymentMethod::Cash) {
        Some(PaymentMethod::Cash)
    } else if code == method_code(PaymentMethod::CreditCard) {
        Some(PaymentMethod::CreditCard)
    } else if code == method_code(PaymentMethod::BankTransfer) {
        Some(PaymentMethod::BankTransfer)
    } else if code == method_code(PaymentMethod::EWallet) {
        Some(PaymentMethod::EWallet)
    } else {
        None
    }
}

pub(crate) fn cash_text() -> (r: String)
    ensures
        r@ == method_code(PaymentMethod::Cash),
{
    let r = String::from_str("CASH");
    proof {
        reveal_strlit("CASH");
    }
    r
}

pub(crate) fn credit_card_text() -> (r: String)
    ensures
        r@ == method_code(PaymentMethod::CreditCard),
{
    let r = String::from_str("CREDIT_CARD");
    proof {
        reveal_strlit("CREDIT_CARD");
    }
    r
}

pub(crate) fn bank_transfer_text() -> (r: String)
    ensures
        r@ == method_code(PaymentMethod::BankTransfer),
{
    let r = String::from_str("BANK_TRANSFER");
    proof {
        reveal_strlit("BANK_TRANSFER");
    }
    r
}

pub(crate) fn e_wallet_text() -> (r: String)
    ensures
        r@ == method_code(PaymentMethod::EWallet),
{
    let r = String::from_str("E_WALLET");
    proof {
        reveal_strlit("E_WALLET");
    }
    r
}

impl PaymentMethod {
    /// The code of the method: `CASH`, `CREDIT_CARD`, `BANK_TRANSFER` or
    /// `E_WALLET`.
    pub fn to_string(&self) -> (r: String)
        ensures
            r@ == method_code(*self),
    {
        match self {
            PaymentMethod::Cash => cash_text(),
            PaymentMethod::CreditCard => credit_card_text(),
            PaymentMethod::BankTransfer => bank_transfer_text(),
            PaymentMethod::EWallet => e_wallet_text(),
        }
    }
}

/// One partial payment towards a payment.
#[derive(Debug)]
pub struct Installment {
    pub id: String,
    pub payment_id: String,
    pub amount: i64,
    pub payment_date: i64,
}

/// The value an installment stands for.
pub struct InstallmentView {
    pub id: Seq<char>,
    pub payment_id: Seq<char>,
    pub amount: int,
    pub payment_date: int,
}

impl View for Installment {
    type V = InstallmentView;

    open spec fn view(&self) -> InstallmentView {
        InstallmentView {
            id: self.id@,
            payment_id: self.payment_id@,
            amount: self.amount as int,
            payment_date: self.payment_date as int,
        }
    }
}

impl Clone for Installment {
    fn clone(&self) -> (r: Self)
        ensures
            r@ == self@,
    {
        Installment {
            id: self.id.clone(),
            payment_id: self.payment_id.clone(),
            amount: self.amount,
            payment_date: self.payment_date,
        }
    }
}

/// A payment for one sales transaction.
#[derive(Debug)]
pub struct Payment {
    pub id: String,
    pub transaction_id: String,
    pub amount: i64,
    pub method: PaymentMethod,
    pub status: PaymentStatus,
    pub payment_date: i64,
    pub installments: Vec<Installment>,
    pub due_date: Option<i64>,
}

/// The value a payment stands for.
pub struct PaymentView {
    pub id: Seq<char>,
    pub transaction_id: Seq<char>,
    pub amount: int,
    pub method: PaymentMethod,
    pub status: PaymentStatus,
    pub payment_date: int,
    pub installments: Seq<InstallmentView>,
    pub due_date: Option<int>,
}

/// The values of a sequence of installments.
pub open spec fn installment_views(s: Seq<Installment>) -> Seq<InstallmentView> {
    s.map_values(|i: Installment| i@)
}

/// A date, as a plain value.
pub open spec fn date_view(d: Option<i64>) -> Option<int> {
    match d {
        Some(t) => Some(t as int),
        None => None,
    }
}

impl View for Payment {
    type V = PaymentView;

    open spec fn view(&self) -> PaymentView {
        PaymentView {
            id: self.id@,
            transaction_id: self.transaction_id@,
            amount: self.amount as int,
            method: self.method,
            status: self.status,
            payment_date: self.payment_date as int,
            installments: installment_views(self.installments@),
            due_date: date_view(self.due_date),
        }
    }
}

/// A copy of a list of installments.
pub fn clone_installments(v: &Vec<Installment>) -> (r: Vec<Installment>)
    ensures
        installment_views(r@) == installment_views(v@),
{
    let mut r: Vec<Installment> = Vec::new();
    let mut i: usize = 0;
    while i < v.len()
        invariant
            i <= v.len(),
            r@.len() == i,
            forall|k: int| 0 <= k < i ==> (#[trigger] r@[k])@ == v@[k]@,
        decreases v.len() - i,
    {
        r.push(v[i].clone());
        i = i + 1;
    }
    assert(installment_views(r@) =~= installment_views(v@));
    r
}

impl Clone for Payment {
    fn clone(&self) -> (r: Self)
        ensures
            r@ == self@,
    {
        Payment {
            id: self.id.clone(),
            transaction_id: self.transaction_id.clone(),
            amount: self.amount,
            method: self.method,
            status: self.status,
            payment_date: self.payment_date,
            installments: clone_installments(&self.installments),
            due_date: self.due_date,
        }
    }
}

/// The sum of the amounts of a sequence of installments.
pub open spec fn total_paid(s: Seq<InstallmentView>) -> int
    decreases s.len(),
{
    if s.len() == 0 {
        0
    } else {
        total_paid(s.drop_last()) + s.last().amount
    }
}

/// The sum of the amounts of the installments of a payment, as the sum of
/// `installments.iter().map(|i| i.amount)`.
pub fn sum_installments(v: &Vec<Installment>) -> (r: i128)
    ensures
        r == total_paid(installment_views(v@)),
{
    let mut sum: i128 = 0;
    let mut i: usize = 0;
    while i < v.len()
        invariant
            i <= v.len(),
            sum == total_paid(installment_views(v@).subrange(0, i as int)),
            -(i as int) * 0x8000_0000_0000_0000 <= sum <= (i as int) * 0x8000_0000_0000_0000,
        decreases v.len() - i,
    {
        proof {
            let s = installment_views(v@);
            assert(s.subrange(0, i + 1).drop_last() =~= s.subrange(0, i as int));
            assert(i < 0x1_0000_0000_0000_0000);
        }
        sum = sum + v[i].amount as i128;
        i = i + 1;
    }
    assert(installment_views(v@).subrange(0, v.len() as int) =~= installment_views(v@));
    sum
}

} // verus!
