//! Selecting payments: the filters a listing may carry.
use vstd::prelude::*;
use vstd::string::*;
use crate::manajemen_pembayaran::enums::payment_status::{
    lemma_status_code_roundtrip, status_code, status_of_text, PaymentStatus,
};
use crate::manajemen_pembayaran::model::payment::{
    bank_transfer_text, cash_text, credit_card_text, e_wallet_text, method_code, method_of_code, Installment,
    InstallmentView, Payment, PaymentMethod, PaymentView,
};
use crate::clock::{is_four_digit_year_time, now_timestamp, rfc3339_text};
use crate::manajemen_pembayaran::patterns::observer::texts;
use crate::manajemen_pembayaran::patterns::state::is_installment_id;
use crate::manajemen_pembayaran::patterns::strategy::prefixed_uuid;
use crate::text::uppercase_of;

verus! {

/// The text of an optional string.
pub open spec fn opt_text(o: Option<String>) -> Option<Seq<char>> {
    match o {
        Some(s) => Some(s@),
        None => None,
    }
}

/// Conditions a listing of payments is narrowed by; each one that is given
/// must hold.
pub struct PaymentFilters {
    pub status: Option<String>,
    pub method: Option<String>,
    pub transaction_id: Option<String>,
}

/// The texts of the conditions of a listing.
pub struct PaymentFiltersView {
    pub status: Option<Seq<char>>,
    pub method: Option<Seq<char>>,
    pub transaction_id: Option<Seq<char>>,
}

impl View for PaymentFilters {
    type V = PaymentFiltersView;

    open spec fn view(&self) -> PaymentFiltersView {
        PaymentFiltersView {
            status: opt_text(self.status),
            method: opt_text(self.method),
            transaction_id: opt_text(self.transaction_id),
        }
    }
}

/// The conditions of an optional set of filters.
pub open spec fn opt_filters(f: Option<PaymentFilters>) -> Option<PaymentFiltersView> {
    match f {
        Some(x) => Some(x@),
        None => None,
    }
}

/// The name of a method in capitals, as its debug name is written in
/// capitals: `CASH`, `CREDITCARD`, `BANKTRANSFER` or `EWALLET`.
pub open spec fn method_name_upper(m: PaymentMethod) -> Seq<char> {
    match m {
        PaymentMethod::Cash => "CASH"@,
        PaymentMethod::CreditCard => "CREDITCARD"@,
        PaymentMethod::BankTransfer => "BANKTRANSFER"@,
        PaymentMethod::EWallet => "EWALLET"@,
    }
}

/// Whether a stored payment is listed under the given filters: a status
/// filter that names a status keeps the payments in that status (one that
/// names none is ignored); a method filter keeps the payments whose method
/// name matches it in any letter case. A transaction filter is not applied
/// to the stored payments.
pub open spec fn is_listed(p: PaymentView, f: Option<PaymentFiltersView>) -> bool {
    match f {
        None => true,
        Some(f) => {
            &&& match f.status {
                Some(s) => match status_of_text(s) {
                    Some(st) => p.status == st,
                    None => true,
                },
                None => true,
            }
            &&& match f.method {
                Some(m) => uppercase_of(m) == method_name_upper(p.method),
                None => true,
            }
        },
    }
}

} // verus!

verus! {

/// Where a text from the database holds a point in time: RFC 3339 first,
/// then `%Y-%m-%d %H:%M:%S%.f`, then `%Y-%m-%d %H:%M:%S`, read as UTC.
pub open spec fn db_timestamp(s: Seq<char>) -> Option<int> {
    match crate::clock::rfc3339_timestamp(s) {
        Some(t) => Some(t),
        None => match crate::clock::naive_timestamp(s, "%Y-%m-%d %H:%M:%S%.f"@) {
            Some(t) => Some(t),
            None => crate::clock::naive_timestamp(s, "%Y-%m-%d %H:%M:%S"@),
        },
    }
}

/// Reads a point in time stored as text.
pub fn parse_db_timestamp(s: &str) -> (r: Option<i64>)
    ensures
        match r {
            Some(t) => db_timestamp(s@) == Some(t as int),
            None => db_timestamp(s@) is None,
        },
{
    match crate::clock::parse_rfc3339_timestamp(s) {
        Some(t) => Some(t),
        None => match crate::clock::parse_naive_timestamp(s, "%Y-%m-%d %H:%M:%S%.f") {
            Some(t) => Some(t),
            None => crate::clock::parse_naive_timestamp(s, "%Y-%m-%d %H:%M:%S"),
        },
    }
}

/// The due date a row stores: absent, or a readable point in time.
pub open spec fn db_due_date(d: Option<Seq<char>>) -> Option<Option<int>> {
    match d {
        None => Some(None),
        Some(s) => match db_timestamp(s) {
            Some(t) => Some(Some(t)),
            None => None,
        },
    }
}

/// The payment a row of the payments table holds, without its
/// installments; `None` where the method is not one of the method codes,
/// the status not a status code (in any letter case), or a date not
/// readable.
pub open spec fn payment_of_row(
    id: Seq<char>,
    transaction_id: Seq<char>,
    amount: int,
    method: Seq<char>,
    status: Seq<char>,
    payment_date: Seq<char>,
    due_date: Option<Seq<char>>,
) -> Option<PaymentView> {
    match (method_of_code(method), status_of_text(status), db_timestamp(payment_date), db_due_date(due_date)) {
        (Some(m), Some(st), Some(t), Some(due)) => Some(
            PaymentView {
                id,
                transaction_id,
                amount,
                method: m,
                status: st,
                payment_date: t,
                installments: Seq::empty(),
                due_date: due,
            },
        ),
        _ => None,
    }
}

/// The column values of a row of the payments table.
pub struct PaymentRow {
    pub id: String,
    pub transaction_id: String,
    pub amount: i64,
    pub method: String,
    pub status: String,
    pub payment_date: String,
    pub due_date: Option<String>,
}

/// The column values of a row of the installments table.
pub struct InstallmentRow {
    pub id: String,
    pub payment_id: String,
    pub amount: i64,
    pub payment_date: String,
}

/// The dates of `p` can be stored as text and read back: they lie in the
/// years 0000 to 9999.
pub open spec fn storable_dates(p: PaymentView) -> bool {
    &&& is_four_digit_year_time(p.payment_date)
    &&& (p.due_date matches Some(d) ==> is_four_digit_year_time(d))
}

/// Payment storage; the queries run around the parts here.
pub struct PembayaranRepository;

impl PembayaranRepository {
    /// The payment a row of the payments table holds, without its
    /// installments.
    pub fn parse_row_to_payment(
        id: String,
        transaction_id: String,
        amount: i64,
        method: &str,
        status: &str,
        payment_date: &str,
        due_date: Option<String>,
    ) -> (r: Option<Payment>)
        ensures
            match payment_of_row(id@, transaction_id@, amount as int, method@, status@, payment_date@, opt_text(due_date)) {
                Some(v) => r matches Some(p) && p@ == v,
                None => r is None,
            },
    {
        let method_text = String::from_str(method);
        let payment_method = if method_text == cash_text() {
            PaymentMethod::Cash
        } else if method_text == credit_card_text() {
            PaymentMethod::CreditCard
        } else if method_text == bank_transfer_text() {
            PaymentMethod::BankTransfer
        } else if method_text == e_wallet_text() {
            PaymentMethod::EWallet
        } else {
            return None;
        };
        let payment_status = match PaymentStatus::from_string(status) {
            Some(s) => s,
            None => {
                return None;
            },
        };
        let date = match parse_db_timestamp(payment_date) {
            Some(t) => t,
            None => {
                return None;
            },
        };
        let due = match &due_date {
            Some(d) => match parse_db_timestamp(d.as_str()) {
                Some(t) => Some(t),
                None => {
                    return None;
                },
            },
            None => None,
        };
        let p = Payment {
            id,
            transaction_id,
            amount,
            method: payment_method,
            status: payment_status,
            payment_date: date,
            installments: Vec::new(),
            due_date: due,
        };
        assert(p@.installments =~= Seq::<InstallmentView>::empty());
        Some(p)
    }

    /// A status change of a stored payment: the payment put into
    /// `new_status`, and, where an amount is given, the installment to insert
    /// for it, dated `now`.
    pub fn plan_status_update_at(payment: Payment, payment_id: &str, new_status: PaymentStatus, additional_amount: Option<i64>, now: i64) -> (r: (Payment, Option<Installment>))
        ensures
            r.0@ == (PaymentView { status: new_status, ..payment@ }),
            match additional_amount {
                None => r.1 is None,
                Some(a) => r.1 matches Some(i) && {
                    &&& is_installment_id(i@.id)
                    &&& i@.payment_id == payment_id@
                    &&& i@.amount == a as int
                    &&& i@.payment_date == now
                },
            },
    {
        let mut payment = payment;
        payment.status = new_status;
        let installment = match additional_amount {
            Some(amount) => Some(
                Installment {
                    id: prefixed_uuid("INST-"),
                    payment_id: String::from_str(payment_id),
                    amount,
                    payment_date: now,
                },
            ),
            None => None,
        };
        (payment, installment)
    }

    /// A status change of a stored payment: the payment put into
    /// `new_status`, and, where an amount is given, the installment to insert
    /// for it, dated when the clock is read.
    pub fn plan_status_update(payment: Payment, payment_id: &str, new_status: PaymentStatus, additional_amount: Option<i64>) -> (r: (Payment, Option<Installment>))
        ensures
            r.0@ == (PaymentView { status: new_status, ..payment@ }),
            match additional_amount {
                None => r.1 is None,
                Some(a) => r.1 matches Some(i) && {
                    &&& is_installment_id(i@.id)
                    &&& i@.payment_id == payment_id@
                    &&& i@.amount == a as int
                },
            },
    {
        Self::plan_status_update_at(payment, payment_id, new_status, additional_amount, now_timestamp())
    }

    /// Whether a point in time can be stored as text and read back.
    pub fn is_storable_time(t: i64) -> (b: bool)
        ensures
            b == is_four_digit_year_time(t as int),
    {
        -62167219200i64 <= t && t <= 253402300799i64
    }

    /// Whether the dates of `payment` can be stored as text and read back.
    pub fn has_storable_dates(payment: &Payment) -> (b: bool)
        ensures
            b == storable_dates(payment@),
    {
        let in_range = Self::is_storable_time(payment.payment_date);
        match payment.due_date {
            Some(d) => in_range && Self::is_storable_time(d),
            None => in_range,
        }
    }

    /// The row that stores `payment` without its installments: the method
    /// and status by their codes and the dates in RFC 3339. Reading the row
    /// back gives the payment.
    pub fn payment_row(payment: &Payment) -> (r: PaymentRow)
        requires
            storable_dates(payment@),
        ensures
            r.id@ == payment@.id,
            r.transaction_id@ == payment@.transaction_id,
            r.amount == payment.amount,
            r.method@ == method_code(payment.method),
            r.status@ == status_code(payment.status),
            payment_of_row(r.id@, r.transaction_id@, r.amount as int, r.method@, r.status@, r.payment_date@, opt_text(r.due_date))
                == Some(PaymentView { installments: Seq::empty(), ..payment@ }),
    {
        let due_date = match payment.due_date {
            Some(d) => Some(rfc3339_text(d)),
            None => None,
        };
        let r = PaymentRow {
            id: payment.id.clone(),
            transaction_id: payment.transaction_id.clone(),
            amount: payment.amount,
            method: payment.method.to_string(),
            status: payment.status.to_string(),
            payment_date: rfc3339_text(payment.payment_date),
            due_date,
        };
        proof {
            lemma_status_code_roundtrip(payment.status);
            assert(method_of_code(method_code(payment.method)) == Some(payment.method));
            assert(payment_of_row(r.id@, r.transaction_id@, r.amount as int, r.method@, r.status@, r.payment_date@, opt_text(r.due_date))
                =~~= Some(PaymentView { installments: Seq::empty(), ..payment@ }));
        }
        r
    }

    /// The row that stores `installment`, its date in RFC 3339. Reading the
    /// row back gives the installment.
    pub fn installment_row(installment: &Installment) -> (r: InstallmentRow)
        requires
            is_four_digit_year_time(installment.payment_date as int),
        ensures
            r.id@ == installment@.id,
            r.payment_id@ == installment@.payment_id,
            r.amount == installment.amount,
            db_timestamp(r.payment_date@) == Some(installment.payment_date as int),
    {
        InstallmentRow {
            id: installment.id.clone(),
            payment_id: installment.payment_id.clone(),
            amount: installment.amount,
            payment_date: rfc3339_text(installment.payment_date),
        }
    }

    /// The installment a row of the installments table holds, where its date
    /// is readable.
    pub fn parse_row_to_installment(id: String, payment_id: String, amount: i64, payment_date: &str) -> (r: Option<Installment>)
        ensures
            match db_timestamp(payment_date@) {
                Some(t) => r matches Some(i) && i@ == InstallmentView {
                    id: id@,
                    payment_id: payment_id@,
                    amount: amount as int,
                    payment_date: t,
                },
                None => r is None,
            },
    {
        match parse_db_timestamp(payment_date) {
            Some(t) => Some(Installment { id, payment_id, amount, payment_date: t }),
            None => None,
        }
    }

    /// The query that lists the payments under `filters`, and the values
    /// bound to its parameters.
    pub fn find_all_query(filters: &Option<PaymentFilters>) -> (r: (String, Vec<String>))
        ensures
            r.0@ == find_all_query_text(opt_filters(*filters)),
            texts(r.1@) == find_all_binds(opt_filters(*filters)),
    {
        let mut pairs: Vec<(&str, &String)> = Vec::new();
        match filters {
            Some(f) => {
                match &f.status {
                    Some(v) => pairs.push(("status", v)),
                    None => {},
                }
                match &f.method {
                    Some(v) => pairs.push(("method", v)),
                    None => {},
                }
                match &f.transaction_id {
                    Some(v) => pairs.push(("transaction_id", v)),
                    None => {},
                }
            },
            None => {},
        }
        let ghost spec_pairs = filter_pairs(opt_filters(*filters));
        assert(pairs@.len() == spec_pairs.len());
        assert(forall|k: int| 0 <= k < pairs@.len() ==> (#[trigger] pairs@[k]).0@ == spec_pairs[k].0 && pairs@[k].1@ == spec_pairs[k].1);
        let mut query = String::from_str(
            "SELECT id, transaction_id, amount, method, status, payment_date, due_date FROM payments",
        );
        let mut binds: Vec<String> = Vec::new();
        let mut conditions = String::new();
        let mut k: usize = 0;
        while k < pairs.len()
            invariant
                k <= pairs@.len(),
                pairs@.len() == spec_pairs.len(),
                spec_pairs.len() <= 3,
                forall|m: int| 0 <= m < pairs@.len() ==> (#[trigger] pairs@[m]).0@ == spec_pairs[m].0 && pairs@[m].1@ == spec_pairs[m].1,
                conditions@ == conditions_text(spec_pairs.subrange(0, k as int), 1),
                texts(binds@) == spec_pairs.subrange(0, k as int).map_values(|p: (Seq<char>, Seq<char>)| p.1),
                query@ == "SELECT id, transaction_id, amount, method, status, payment_date, due_date FROM payments"@,
            decreases pairs@.len() - k,
        {
            let (column, value) = pairs[k];
            let marker = if k == 0 {
                "$1"
            } else if k == 1 {
                "$2"
            } else {
                "$3"
            };
            let condition = String::from_str(column).concat(" = ").concat(marker);
            proof {
                lemma_conditions_text_push(spec_pairs.subrange(0, k as int), spec_pairs[k as int], 1);
                assert(spec_pairs.subrange(0, k + 1) =~= spec_pairs.subrange(0, k as int).push(spec_pairs[k as int]));
            }
            if k == 0 {
                conditions = condition;
            } else {
                conditions = conditions.concat(" AND ").concat(condition.as_str());
            }
            let ghost before = binds@;
            binds.push(value.clone());
            proof {
                assert(texts(binds@) =~= texts(before).push(value@));
                assert(spec_pairs.subrange(0, k + 1).map_values(|p: (Seq<char>, Seq<char>)| p.1)
                    =~= spec_pairs.subrange(0, k as int).map_values(|p: (Seq<char>, Seq<char>)| p.1).push(spec_pairs[k as int].1));
            }
            k = k + 1;
        }
        assert(spec_pairs.subrange(0, k as int) =~= spec_pairs);
        if k > 0 {
            query = query.concat(" WHERE ").concat(conditions.as_str());
        }
        (query, binds)
    }
}

/// The column and value of each filter that is given, in the order status,
/// method, transaction.
pub open spec fn filter_pairs(f: Option<PaymentFiltersView>) -> Seq<(Seq<char>, Seq<char>)> {
    match f {
        None => Seq::empty(),
        Some(f) => opt_pair("status"@, f.status) + opt_pair("method"@, f.method) + opt_pair(
            "transaction_id"@,
            f.transaction_id,
        ),
    }
}

/// The pair of a column and a value, where the value is given.
pub open spec fn opt_pair(column: Seq<char>, v: Option<Seq<char>>) -> Seq<(Seq<char>, Seq<char>)> {
    match v {
        Some(x) => seq![(column, x)],
        None => Seq::empty(),
    }
}

/// The parameter marker of the `n`th bound value (at most three are bound).
pub open spec fn parameter_marker(n: int) -> Seq<char> {
    if n == 1 {
        "$1"@
    } else if n == 2 {
        "$2"@
    } else {
        "$3"@
    }
}

/// The conditions on the columns of `pairs`, joined by ` AND `, with their
/// parameters numbered from `first`.
pub open spec fn conditions_text(pairs: Seq<(Seq<char>, Seq<char>)>, first: int) -> Seq<char>
    decreases pairs.len(),
{
    if pairs.len() == 0 {
        Seq::empty()
    } else if pairs.len() == 1 {
        pairs[0].0 + " = "@ + parameter_marker(first)
    } else {
        conditions_text(pairs.drop_last(), first) + " AND "@ + pairs.last().0 + " = "@
            + parameter_marker(first + pairs.len() - 1)
    }
}

proof fn lemma_conditions_text_push(pairs: Seq<(Seq<char>, Seq<char>)>, p: (Seq<char>, Seq<char>), first: int)
    ensures
        conditions_text(pairs.push(p), first) == if pairs.len() == 0 {
            p.0 + " = "@ + parameter_marker(first)
        } else {
            conditions_text(pairs, first) + " AND "@ + p.0 + " = "@ + parameter_marker(first + pairs.len())
        },
{
    assert(pairs.push(p).drop_last() =~= pairs);
}

/// The query listing the payments under the filters.
pub open spec fn find_all_query_text(f: Option<PaymentFiltersView>) -> Seq<char> {
    let pairs = filter_pairs(f);
    if pairs.len() == 0 {
        "SELECT id, transaction_id, amount, method, status, payment_date, due_date FROM payments"@
    } else {
        "SELECT id, transaction_id, amount, method, status, payment_date, due_date FROM payments"@
            + " WHERE "@ + conditions_text(pairs, 1)
    }
}

/// The values bound to the parameters of that query, in order.
pub open spec fn find_all_binds(f: Option<PaymentFiltersView>) -> Seq<Seq<char>> {
    filter_pairs(f).map_values(|p: (Seq<char>, Seq<char>)| p.1)
}

} // verus!
