//! Customer records as the database stores them.
use vstd::prelude::*;
use crate::clock::ymd_day_number;
use crate::manajemen_pelanggan::model::pelanggan::{Pelanggan, Tanggal};

verus! {

/// Customer storage; the queries run around the parts here.
pub struct PelangganRepository;

impl PelangganRepository {
    /// The customer a row holds, where its join date, stored as text, is a
    /// `YYYY-MM-DD` date.
    pub fn parse_row_to_pelanggan(id: i32, nama: String, alamat: String, no_telp: String, tanggal_gabung: &str) -> (r: Option<Pelanggan>)
        ensures
            r is Some <==> ymd_day_number(tanggal_gabung@) is Some,
            r matches Some(p) ==> {
                &&& p.id == id
                &&& p.nama == nama
                &&& p.alamat == alamat
                &&& p.no_telp == no_telp
                &&& ymd_day_number(tanggal_gabung@) == Some(p.tanggal_gabung.day_number as int)
            },
    {
        match Tanggal::parse(tanggal_gabung) {
            Some(t) => Some(Pelanggan { id, nama, alamat, no_telp, tanggal_gabung: t }),
            None => None,
        }
    }
}

} // verus!
