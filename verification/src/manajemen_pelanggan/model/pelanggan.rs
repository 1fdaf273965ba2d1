//! A customer record.
use vstd::prelude::*;
use crate::clock::{calendar_day_number, day_number_of_ymd, parse_ymd_day_number, today_day_number, ymd_day_number};

verus! {

/// A calendar date, held as its day number: 0001-01-01 is day 1.
#[derive(Debug, Clone, Copy, PartialEq, Eq, Structural)]
pub struct Tanggal {
    pub day_number: i32,
}

impl Tanggal {
    /// The date `year`-`month`-`day`, where it exists.
    pub fn from_ymd(year: i32, month: u32, day: u32) -> (r: Option<Tanggal>)
        ensures
            match r {
                Some(t) => calendar_day_number(year as int, month as int, day as int) == Some(
                    t.day_number as int,
                ),
                None => calendar_day_number(year as int, month as int, day as int) is None,
            },
    {
        match day_number_of_ymd(year, month, day) {
            Some(d) => Some(Tanggal { day_number: d }),
            None => None,
        }
    }

    /// The date written as `YYYY-MM-DD` in `s`, where it is one.
    pub fn parse(s: &str) -> (r: Option<Tanggal>)
        ensures
            match r {
                Some(t) => ymd_day_number(s@) == Some(t.day_number as int),
                None => ymd_day_number(s@) is None,
            },
    {
        match parse_ymd_day_number(s) {
            Some(d) => Some(Tanggal { day_number: d }),
            None => None,
        }
    }

    /// Today's date in UTC.
    pub fn today() -> (r: Tanggal) {
        Tanggal { day_number: today_day_number() }
    }
}

/// A customer: identifier, name, address, phone number and the date they
/// joined.
#[derive(Debug, Clone)]
pub struct Pelanggan {
    pub id: i32,
    pub nama: String,
    pub alamat: String,
    pub no_telp: String,
    pub tanggal_gabung: Tanggal,
}

/// The details a new customer is registered with.
#[derive(Debug, Clone)]
pub struct PelangganForm {
    pub nama: String,
    pub alamat: String,
    pub no_telp: String,
}

impl Pelanggan {
    /// A new customer with identifier 0, joining on `today`.
    pub fn new_on(nama: String, alamat: String, no_telp: String, today: Tanggal) -> (p: Self)
        ensures
            p.id == 0,
            p.nama == nama,
            p.alamat == alamat,
            p.no_telp == no_telp,
            p.tanggal_gabung == today,
    {
        Pelanggan { id: 0, nama, alamat, no_telp, tanggal_gabung: today }
    }

    /// A new customer with identifier 0, joining on the date the clock
    /// reads.
    pub fn new(nama: String, alamat: String, no_telp: String) -> (p: Self)
        ensures
            p.id == 0,
            p.nama == nama,
            p.alamat == alamat,
            p.no_telp == no_telp,
    {
        Self::new_on(nama, alamat, no_telp, Tanggal::today())
    }
}

} // verus!
