use buildingstore_be::manajemen_pelanggan::controller::pelanggan::{
    check_update_target, create_pelanggan_response, delete_pelanggan_response, get_pelanggan_response,
    list_pelanggan_response, update_pelanggan_response,
};
use buildingstore_be::manajemen_pelanggan::model::pelanggan::{Pelanggan, Tanggal};
use buildingstore_be::manajemen_pelanggan::repository::pelanggan::PelangganRepository;
use buildingstore_be::manajemen_pelanggan::service::filter::{
    AnyFilterStrategy, FilterByNama, FilterByTanggalGabungAfter, FilterByTanggalGabungPrev, FilterStrategy,
};
use buildingstore_be::manajemen_pelanggan::service::filter_context::FilterContext;
use buildingstore_be::manajemen_pelanggan::service::pelanggan::PelangganService;
use buildingstore_be::manajemen_pelanggan::service::sort::{AnySortStrategy, SortByNama, SortByTanggalGabung, SortStrategy};
use buildingstore_be::manajemen_pelanggan::service::sort_context::SortContext;
use chrono::{Datelike, Utc};

fn two_customers() -> Vec<Pelanggan> {
    vec![
        Pelanggan::new("John Doe".to_string(), "123 Main St".to_string(), "1234567890".to_string()),
        Pelanggan::new("Jane Smith".to_string(), "456 Elm St".to_string(), "0987654321".to_string()),
    ]
}

fn on(nama: &str, day: &str) -> Pelanggan {
    Pelanggan {
        id: 0,
        nama: nama.to_string(),
        alamat: String::new(),
        no_telp: String::new(),
        tanggal_gabung: Tanggal::parse(day).unwrap(),
    }
}

fn names(v: &[Pelanggan]) -> Vec<&str> {
    v.iter().map(|p| p.nama.as_str()).collect()
}

#[test]
fn test_create_pelanggan() {
    let pelanggan = Pelanggan::new("Castorice".to_string(), "Amphoreus".to_string(), "1234567890".to_string());
    assert_eq!(pelanggan.nama, "Castorice");
    assert_eq!(pelanggan.alamat, "Amphoreus");
    assert_eq!(pelanggan.no_telp, "1234567890");
    assert_eq!(pelanggan.tanggal_gabung.day_number, Utc::now().date_naive().num_days_from_ce());
}

#[test]
fn test_filter_by_nama() {
    let mut pelanggan_vec = two_customers();

    let filter = FilterByNama;
    filter.execute(&mut pelanggan_vec, "John");

    assert_eq!(pelanggan_vec.len(), 1);
    assert_eq!(pelanggan_vec[0].nama, "John Doe");
}

#[test]
fn test_filter_by_tanggal_gabung_prev() {
    let mut pelanggan_vec = two_customers();

    let filter = FilterByTanggalGabungPrev;
    filter.execute(&mut pelanggan_vec, "2023-01-01");

    assert_eq!(pelanggan_vec.len(), 0);
}

#[test]
fn test_filter_by_tanggal_gabung_after() {
    let mut pelanggan_vec = two_customers();

    let filter = FilterByTanggalGabungAfter;
    filter.execute(&mut pelanggan_vec, "2023-01-01");

    assert_eq!(pelanggan_vec.len(), 2);
}

#[test]
fn filter_context_test_sort_context() {
    let mut customers = two_customers();

    let mut filter_context = FilterContext::new();
    filter_context.set_strategy(AnyFilterStrategy::Nama(FilterByNama));

    let query = "Jane";

    filter_context.execute_filter(&mut customers, query);

    assert_eq!(customers.len(), 1);
    assert_eq!(customers[0].nama, "Jane Smith");
}

#[test]
fn test_sort_by_nama() {
    let mut customers = two_customers();

    let sorter = SortByNama;
    sorter.execute(&mut customers);

    assert_eq!(customers[0].nama, "Jane Smith");
    assert_eq!(customers[1].nama, "John Doe");
}

#[test]
fn test_sort_by_tanggal_gabung() {
    let mut customers = two_customers();

    let sorter = SortByTanggalGabung;
    sorter.execute(&mut customers);

    assert_eq!(customers[0].tanggal_gabung, customers[1].tanggal_gabung);
}

#[test]
fn sort_context_test_sort_context() {
    let mut customers = two_customers();

    let mut sort_context = SortContext::new();
    sort_context.set_strategy(AnySortStrategy::Nama(SortByNama));

    sort_context.execute_sort(&mut customers);

    assert_eq!(customers[0].nama, "Jane Smith");
    assert_eq!(customers[1].nama, "John Doe");
}

#[test]
fn test_sort_pelanggan() {
    let pelanggan1 = Pelanggan::new("Charlie".to_string(), "111 Maple St".to_string(), "08123456789".to_string());
    let pelanggan2 = Pelanggan::new("Alice".to_string(), "789 Oak St".to_string(), "08123456789".to_string());
    let pelanggan3 = Pelanggan::new("Bob".to_string(), "101 Pine St".to_string(), "08123456789".to_string());

    let pelanggan_list = vec![pelanggan1, pelanggan2, pelanggan3];
    let sorted_pelanggan = PelangganService::sort_pelanggan(pelanggan_list.clone(), "nama");
    assert_eq!(sorted_pelanggan[0].nama, "Alice");
    assert_eq!(sorted_pelanggan[1].nama, "Bob");
    assert_eq!(sorted_pelanggan[2].nama, "Charlie");
}

#[test]
fn test_filter_pelanggan() {
    let pelanggan1 = Pelanggan::new("Charlie".to_string(), "111 Maple St".to_string(), "08123456789".to_string());
    let pelanggan2 = Pelanggan::new("Alice".to_string(), "789 Oak St".to_string(), "08123456789".to_string());
    let pelanggan3 = Pelanggan::new("Bob".to_string(), "101 Pine St".to_string(), "08123456789".to_string());

    let pelanggan_list = vec![pelanggan1, pelanggan2, pelanggan3];
    let filtered_pelanggan = PelangganService::filter_pelanggan(pelanggan_list.clone(), "nama", "Alice");
    assert_eq!(filtered_pelanggan.len(), 1);
    assert_eq!(filtered_pelanggan[0].nama, "Alice");
}

#[test]
fn sort_by_date_is_stable() {
    let list = vec![on("B", "2024-03-01"), on("A", "2024-01-01"), on("C", "2024-03-01"), on("D", "2023-12-31")];
    let sorted = PelangganService::sort_pelanggan(list, "tanggal_gabung");
    assert_eq!(names(&sorted), vec!["D", "A", "B", "C"]);
}

#[test]
fn unknown_sort_name_keeps_the_order() {
    let list = vec![on("b", "2024-01-01"), on("B", "2024-01-01"), on("a", "2024-01-01")];
    let sorted = PelangganService::sort_pelanggan(list.clone(), "umur");
    assert_eq!(names(&sorted), vec!["b", "B", "a"]);
    let by_name = PelangganService::sort_pelanggan(list, "nama");
    assert_eq!(names(&by_name), vec!["B", "a", "b"]);
}

#[test]
fn date_filters_are_strict() {
    let list = vec![on("A", "2024-01-01"), on("B", "2024-01-02"), on("C", "2024-01-03")];
    let before = PelangganService::filter_pelanggan(list.clone(), "tanggal_gabung_prev", "2024-01-02");
    assert_eq!(names(&before), vec!["A"]);
    let after = PelangganService::filter_pelanggan(list.clone(), "tanggal_gabung_after", "2024-01-02");
    assert_eq!(names(&after), vec!["C"]);
    let unreadable = PelangganService::filter_pelanggan(list.clone(), "tanggal_gabung_after", "soon");
    assert_eq!(unreadable.len(), 3);
    let unknown = PelangganService::filter_pelanggan(list.clone(), "unknown", "B");
    assert_eq!(names(&unknown), vec!["A", "B", "C"]);
    let by_name = PelangganService::filter_pelanggan(list, "nama", "B");
    assert_eq!(names(&by_name), vec!["B"]);
}

#[test]
fn name_filter_is_case_sensitive() {
    let list = vec![on("Castorice", "2024-01-01"), on("Tribbie", "2024-01-01"), on("Aglaea", "2024-01-01")];
    let sorted_and_narrowed = PelangganService::sort_and_filter(
        list,
        Some("nama".to_string()),
        Some("nama".to_string()),
        Some("a".to_string()),
    );
    assert_eq!(names(&sorted_and_narrowed), vec!["Aglaea", "Castorice"]);
}

#[test]
fn dates_read_as_day_numbers() {
    assert_eq!(Tanggal::parse("0001-01-01").unwrap().day_number, 1);
    assert_eq!(Tanggal::parse("2023-01-01").unwrap().day_number, 738521);
    assert!(Tanggal::parse("2023-02-30").is_none());
    assert_eq!(Tanggal::from_ymd(2024, 2, 29).unwrap(), Tanggal::parse("2024-02-29").unwrap());
    assert!(Tanggal::from_ymd(2023, 2, 29).is_none());
}

#[test]
fn customer_row_reads() {
    let p = PelangganRepository::parse_row_to_pelanggan(
        7,
        "Aglaea".to_string(),
        "Okhema".to_string(),
        "123".to_string(),
        "2024-05-06",
    )
    .unwrap();
    assert_eq!(p.id, 7);
    assert_eq!(p.nama, "Aglaea");
    assert_eq!(p.tanggal_gabung, Tanggal::from_ymd(2024, 5, 6).unwrap());
    assert!(PelangganRepository::parse_row_to_pelanggan(1, String::new(), String::new(), String::new(), "06/05/2024").is_none());
}

#[test]
fn customer_endpoint_answers() {
    let err = list_pelanggan_response(None, None, None, None).unwrap_err();
    assert_eq!(err.0, 500);
    assert_eq!(err.1.message, "Failed to fetch pelanggan");
    let list = vec![on("Tribbie", "2024-01-01"), on("Aglaea", "2024-01-01")];
    let ok = list_pelanggan_response(Some(list), Some("nama".to_string()), None, Some("x".to_string())).unwrap();
    assert_eq!(names(&ok), vec!["Aglaea", "Tribbie"]);

    assert_eq!(create_pelanggan_response(true).unwrap().message, "Pelanggan created successfully");
    let e = create_pelanggan_response(false).unwrap_err();
    assert_eq!((e.0, e.1.message.as_str()), (500, "Failed to create pelanggan"));

    assert_eq!(get_pelanggan_response(None).unwrap_err(), 404);
    assert_eq!(get_pelanggan_response(Some(on("A", "2024-01-01"))).unwrap().nama, "A");

    let body = on("A", "2024-01-01");
    assert!(check_update_target(0, &body).is_none());
    let refused = check_update_target(5, &body).unwrap();
    assert_eq!((refused.0, refused.1.message.as_str()), (400, "Invalid data"));
    let r = update_pelanggan_response(true);
    assert_eq!((r.0, r.1.message.as_str()), (200, "Pelanggan updated successfully"));
    let r = update_pelanggan_response(false);
    assert_eq!((r.0, r.1.message.as_str()), (500, "Try again later"));
    let r = delete_pelanggan_response(true);
    assert_eq!((r.0, r.1.message.as_str()), (200, "Pelanggan deleted successfully"));
    let r = delete_pelanggan_response(false);
    assert_eq!((r.0, r.1.message.as_str()), (500, "Failed to delete pelanggan"));
}

#[test]
fn calendar_bounds_and_leap_years() {
    assert_eq!(Tanggal::from_ymd(1, 1, 1).unwrap().day_number, 1);
    assert_eq!(Tanggal::from_ymd(0, 1, 1).unwrap().day_number, -365);
    assert_eq!(Tanggal::from_ymd(1970, 1, 1).unwrap().day_number, 719163);
    assert!(Tanggal::from_ymd(-4, 2, 29).is_some());
    assert!(Tanggal::from_ymd(1900, 2, 29).is_none());
    assert!(Tanggal::from_ymd(2000, 2, 29).is_some());
    assert!(Tanggal::from_ymd(2023, 4, 31).is_none());
    assert!(Tanggal::from_ymd(2023, 13, 1).is_none());
    assert!(Tanggal::from_ymd(2023, 1, 0).is_none());
    assert!(Tanggal::from_ymd(262142, 12, 31).is_some());
    assert!(Tanggal::from_ymd(262143, 1, 1).is_none());
    assert!(Tanggal::from_ymd(-262143, 1, 1).is_some());
    assert!(Tanggal::from_ymd(-262144, 12, 31).is_none());
}
