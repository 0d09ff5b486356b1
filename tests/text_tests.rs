use bvreader::recording::sibling_path;
use bvreader::text::{parse_decimal, split_commas, str_eq};

#[test]
fn decimal_numbers() {
    assert_eq!(parse_decimal("71"), Some(71));
    assert_eq!(parse_decimal("007"), Some(7));
    assert_eq!(parse_decimal(""), None);
    assert_eq!(parse_decimal("+7"), None);
    assert_eq!(parse_decimal("7a"), None);
    assert_eq!(parse_decimal(&usize::MAX.to_string()), Some(usize::MAX));
    assert_eq!(parse_decimal("99999999999999999999999"), None);
}

#[test]
fn comma_pieces() {
    assert_eq!(split_commas("Fp1,,0.0488281,µV"), vec!["Fp1", "", "0.0488281", "µV"]);
    assert_eq!(split_commas(""), vec![""]);
    assert_eq!(split_commas(","), vec!["", ""]);
}

#[test]
fn string_equality() {
    assert!(str_eq("µV", "µV"));
    assert!(!str_eq("uV", "µV"));
    assert!(!str_eq("INT", "INT_16"));
}

#[test]
fn sibling_paths() {
    assert_eq!(sibling_path("src/data/01_header.vhdr", "01_data.eeg"), "src/data/01_data.eeg");
    assert_eq!(sibling_path("01_header.vhdr", "01_data.eeg"), "/01_data.eeg");
    assert_eq!(sibling_path("/a.vhdr", "b"), "/b");
}
