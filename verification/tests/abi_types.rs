use plugin_sdk::abi::{FfiSafeSlice, FfiSafeStr, FfiSafeString};

#[test]
fn owned_string_round_trip_plain() {
    let original = String::from("hello plugin");
    let owned = FfiSafeString::new(original.clone());
    assert_eq!(owned.into_string(), original);
}

#[test]
fn owned_string_round_trip_empty() {
    let owned = FfiSafeString::new(String::new());
    assert_eq!(owned.into_string(), String::new());
}

#[test]
fn owned_string_round_trip_non_ascii() {
    let original = String::from("gr\u{00fc}n \u{2603} \u{1f980}");
    let owned = FfiSafeString::new(original.clone());
    assert_eq!(owned.into_string(), original);
}

#[test]
fn owned_string_borrow_matches() {
    let owned = FfiSafeString::new(String::from("name"));
    assert_eq!(owned.as_str(), "name");
}

#[test]
fn borrowed_str_reads_back() {
    let text = String::from("borrowed view");
    let view = FfiSafeStr::new(text.as_str());
    assert_eq!(view.as_str(), "borrowed view");
}

#[test]
fn borrowed_str_empty() {
    let view = FfiSafeStr::new("");
    assert_eq!(view.as_str(), "");
}

#[test]
fn borrowed_slice_reads_back() {
    let items: Vec<u32> = vec![3, 1, 4, 1, 5];
    let view = FfiSafeSlice::new(items.as_slice());
    assert_eq!(view.as_slice(), &[3, 1, 4, 1, 5]);
}

#[test]
fn borrowed_slice_empty() {
    let items: Vec<u8> = Vec::new();
    let view = FfiSafeSlice::new(items.as_slice());
    assert!(view.as_slice().is_empty());
}
