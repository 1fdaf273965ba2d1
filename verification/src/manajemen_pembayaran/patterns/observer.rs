//! Parties that are told about every change to a payment.
use vstd::prelude::*;
use vstd::string::*;
use crate::manajemen_pembayaran::model::payment::{Payment, PaymentView};

verus! {

/// The texts of a sequence of strings.
pub open spec fn texts(s: Seq<String>) -> Seq<Seq<char>> {
    s.map_values(|t: String| t@)
}

/// A party told about changes to payments; it answers with the notice it
/// records.
pub trait PaymentObserver {
    /// The notice recorded for a change to `p`.
    spec fn notice(&self, p: PaymentView) -> Seq<char>;

    fn payment_updated(&self, payment: &Payment) -> (r: String)
        ensures
            r@ == self.notice(payment@),
    ;
}

/// Updates the status of the sales transaction a payment belongs to.
pub struct TransactionObserver;

impl PaymentObserver for TransactionObserver {
    open spec fn notice(&self, p: PaymentView) -> Seq<char> {
        "Observer: Memperbarui status transaksi untuk ID "@ + p.transaction_id
    }

    fn payment_updated(&self, payment: &Payment) -> (r: String) {
        String::from_str("Observer: Memperbarui status transaksi untuk ID ").concat(
            payment.transaction_id.as_str(),
        )
    }
}

/// Updates the stock sold in the transaction a payment belongs to.
pub struct InventoryObserver;

impl PaymentObserver for InventoryObserver {
    open spec fn notice(&self, p: PaymentView) -> Seq<char> {
        "Observer: Memperbarui stok untuk transaksi ID "@ + p.transaction_id
    }

    fn payment_updated(&self, payment: &Payment) -> (r: String) {
        String::from_str("Observer: Memperbarui stok untuk transaksi ID ").concat(
            payment.transaction_id.as_str(),
        )
    }
}

/// Updates the history of the customer of the transaction a payment belongs to.
pub struct CustomerObserver;

impl PaymentObserver for CustomerObserver {
    open spec fn notice(&self, p: PaymentView) -> Seq<char> {
        "Observer: Memperbarui riwayat pelanggan untuk transaksi ID "@ + p.transaction_id
    }

    fn payment_updated(&self, payment: &Payment) -> (r: String) {
        String::from_str("Observer: Memperbarui riwayat pelanggan untuk transaksi ID ").concat(
            payment.transaction_id.as_str(),
        )
    }
}

/// One of the three observers, chosen at run time.
pub enum AnyPaymentObserver {
    Transaction(TransactionObserver),
    Inventory(InventoryObserver),
    Customer(CustomerObserver),
}

impl PaymentObserver for AnyPaymentObserver {
    open spec fn notice(&self, p: PaymentView) -> Seq<char> {
        match self {
            AnyPaymentObserver::Transaction(o) => o.notice(p),
            AnyPaymentObserver::Inventory(o) => o.notice(p),
            AnyPaymentObserver::Customer(o) => o.notice(p),
        }
    }

    fn payment_updated(&self, payment: &Payment) -> (r: String) {
        match self {
            AnyPaymentObserver::Transaction(o) => o.payment_updated(payment),
            AnyPaymentObserver::Inventory(o) => o.payment_updated(payment),
            AnyPaymentObserver::Customer(o) => o.payment_updated(payment),
        }
    }
}

/// The notices that `observers`, in order, record for a change to `p`.
pub open spec fn notices(observers: Seq<AnyPaymentObserver>, p: PaymentView) -> Seq<Seq<char>> {
    observers.map_values(|o: AnyPaymentObserver| o.notice(p))
}

/// The observers of payments, and the notices they have recorded and that
/// have not been collected yet.
pub struct PaymentSubject {
    observers: Vec<AnyPaymentObserver>,
    delivered: Vec<String>,
}

impl PaymentSubject {
    /// The attached observers, in the order they were attached.
    pub closed spec fn observers(&self) -> Seq<AnyPaymentObserver> {
        self.observers@
    }

    /// The notices recorded and not yet collected, oldest first.
    pub closed spec fn delivered(&self) -> Seq<Seq<char>> {
        texts(self.delivered@)
    }

    /// A subject with no observers and no notices.
    pub fn new() -> (s: Self)
        ensures
            s.observers() == Seq::<AnyPaymentObserver>::empty(),
            s.delivered() == Seq::<Seq<char>>::empty(),
    {
        let s = PaymentSubject { observers: Vec::new(), delivered: Vec::new() };
        assert(s.delivered() =~= Seq::<Seq<char>>::empty());
        s
    }

    /// Adds an observer after the ones attached so far.
    pub fn attach(&mut self, observer: AnyPaymentObserver)
        ensures
            final(self).observers() == old(self).observers().push(observer),
            final(self).delivered() == old(self).delivered(),
    {
        self.observers.push(observer);
    }

    /// Tells every observer, in order, about a change to `payment`.
    pub fn notify(&mut self, payment: &Payment)
        ensures
            final(self).observers() == old(self).observers(),
            final(self).delivered() == old(self).delivered() + notices(
                old(self).observers(),
                payment@,
            ),
    {
        let ghost start = self.delivered();
        let mut i: usize = 0;
        while i < self.observers.len()
            invariant
                i <= self.observers@.len(),
                self.observers@ == old(self).observers@,
                start == texts(old(self).delivered@),
                texts(self.delivered@) == start + notices(self.observers@.subrange(0, i as int), payment@),
            decreases self.observers@.len() - i,
        {
            let notice = self.observers[i].payment_updated(payment);
            let ghost before = self.delivered@;
            self.delivered.push(notice);
            proof {
                assert(texts(self.delivered@) =~= texts(before).push(self.observers@[i as int].notice(payment@)));
                assert(notices(self.observers@.subrange(0, i + 1), payment@) =~= notices(
                    self.observers@.subrange(0, i as int),
                    payment@,
                ).push(self.observers@[i as int].notice(payment@)));
                assert(texts(self.delivered@) =~= start + notices(self.observers@.subrange(0, i + 1), payment@));
            }
            i = i + 1;
        }
        assert(self.observers@.subrange(0, i as int) =~= self.observers@);
    }

    /// Hands over the notices recorded so far, oldest first, and forgets them.
    pub fn take_notifications(&mut self) -> (r: Vec<String>)
        ensures
            texts(r@) == old(self).delivered(),
            final(self).delivered() == Seq::<Seq<char>>::empty(),
            final(self).observers() == old(self).observers(),
    {
        let mut taken: Vec<String> = Vec::new();
        std::mem::swap(&mut taken, &mut self.delivered);
        assert(texts(self.delivered@) =~= Seq::<Seq<char>>::empty());
        taken
    }
}

} // verus!
