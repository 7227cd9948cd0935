use modbus_stream::csv_files::csv_listing;
use modbus_stream::is_safe_csv_filename;

#[test]
fn safe_csv_names() {
    assert!(is_safe_csv_filename("record_2024-01-01_sensor1.csv"));
    assert!(is_safe_csv_filename("A.CSV"));
    assert!(is_safe_csv_filename("data.CsV"));
    assert!(is_safe_csv_filename("é.csv"));
    assert!(is_safe_csv_filename(".csv"));
}

#[test]
fn unsafe_csv_names() {
    assert!(!is_safe_csv_filename(""));
    assert!(!is_safe_csv_filename("../x.csv"));
    assert!(!is_safe_csv_filename("x..csv"));
    assert!(!is_safe_csv_filename("dir/x.csv"));
    assert!(!is_safe_csv_filename("dir\\x.csv"));
    assert!(!is_safe_csv_filename("a b.csv"));
    assert!(!is_safe_csv_filename("x.txt"));
    assert!(!is_safe_csv_filename("csv"));
    assert!(!is_safe_csv_filename("x.csv~"));
    assert!(!is_safe_csv_filename("x$.csv"));
}

#[test]
fn listing_keeps_csv_names_sorted() {
    let names: Vec<String> = ["b.csv", "notes.txt", "A.CSV", "a.csv", "c.Csv", "csv", "b.csv"]
        .iter()
        .map(|s| s.to_string())
        .collect();
    let listed = csv_listing(&names);
    assert_eq!(listed, vec!["A.CSV", "a.csv", "b.csv", "b.csv", "c.Csv"]);
}

#[test]
fn listing_of_nothing_is_empty() {
    assert!(csv_listing(&Vec::new()).is_empty());
    assert!(csv_listing(&vec!["readme.md".to_string()]).is_empty());
}

#[test]
fn recorded_file_names_are_served() {
    assert!(is_safe_csv_filename("record_20260304_103000_sensor1.csv"));
}
