//! The two states a payment can be in.
use vstd::prelude::*;
use vstd::string::*;
use crate::text::{
    ascii_lowercase, ascii_uppercase, is_ascii_text, lemma_uppercase_ignores_lowercasing,
    to_uppercase, uppercase_of,
};

verus! {

/// Whether a payment is settled (`LUNAS`) or still being paid in
/// installments (`CICILAN`).
#[derive(Debug, Clone, Copy, PartialEq, Eq, Structural)]
pub enum PaymentStatus {
    Paid,
    Installment,
}

/// The code `LUNAS`.
pub open spec fn lunas_code() -> Seq<char> {
    seq!['L', 'U', 'N', 'A', 'S']
}

/// The code `CICILAN`.
pub open spec fn cicilan_code() -> Seq<char> {
    seq!['C', 'I', 'C', 'I', 'L', 'A', 'N']
}

/// The code a status is written with.
pub open spec fn status_code(s: PaymentStatus) -> Seq<char> {
    match s {
        PaymentStatus::Paid => lunas_code(),
        PaymentStatus::Installment => cicilan_code(),
    }
}

/// The status whose code is exactly `upper`, if any.
pub open spec fn status_of_code(upper: Seq<char>) -> Option<PaymentStatus> {
    if upper == lunas_code() {
        Some(PaymentStatus::Paid)
    } else if upper == cicilan_code() {
        Some(PaymentStatus::Installment)
    } else {
        None
    }
}

/// The status that a text names, compared after uppercasing it.
pub open spec fn status_of_text(s: Seq<char>) -> Option<PaymentStatus> {
    status_of_code(uppercase_of(s))
}

pub(crate) fn lunas_text() -> (r: String)
    ensures
        r@ == lunas_code(),
{
    let r = String::from_str("LUNAS");
    proof {
        reveal_strlit("LUNAS");
    }
    r
}

pub(crate) fn cicilan_text() -> (r: String)
    ensures
        r@ == cicilan_code(),
{
    let r = String::from_str("CICILAN");
    proof {
        reveal_strlit("CICILAN");
    }
    r
}

impl PaymentStatus {
    /// Reads a status from its code, in any letter case.
    pub fn from_string(status: &str) -> (r: Option<Self>)
        ensures
            r == status_of_text(status@),
    {
        let upper = to_uppercase(status);
        if upper == lunas_text() {
            Some(PaymentStatus::Paid)
        } else if upper == cicilan_text() {
            Some(PaymentStatus::Installment)
        } else {
            None
        }
    }

    /// The code of the status: `LUNAS` or `CICILAN`.
    pub fn to_string(&self) -> (r: String)
        ensures
            r@ == status_code(*self),
    {
        match self {
            PaymentStatus::Paid => lunas_text(),
            PaymentStatus::Installment => cicilan_text(),
        }
    }
}

/// Reading back the code of a status gives the status: a status code is
/// already in uppercase ASCII, so uppercasing it changes nothing.
pub proof fn lemma_status_code_roundtrip(s: PaymentStatus)
    ensures
        status_of_text(status_code(s)) == Some(s),
{
    let code = status_code(s);
    assert(is_ascii_text(code));
    assert(ascii_uppercase(code) =~= code);
}

/// A status code written in lowercase reads back to the status too.
pub proof fn lemma_status_lowercase_roundtrip(s: PaymentStatus)
    ensures
        status_of_text(ascii_lowercase(status_code(s))) == Some(s),
{
    lemma_status_code_roundtrip(s);
    let code = status_code(s);
    assert(is_ascii_text(code));
    lemma_uppercase_ignores_lowercasing(code);
}

/// A text that reads as a status is that status's code in some letter case:
/// uppercased, it is the code.
pub proof fn lemma_status_text_is_code(x: Seq<char>, s: PaymentStatus)
    requires
        status_of_text(x) == Some(s),
    ensures
        uppercase_of(x) == status_code(s),
{
}

} // verus!
