use aptos_wasm::abort_info::AbortInfo;
use aptos_wasm::zip::{unzip_metadata, unzip_metadata_str, zip_metadata, zip_metadata_str};

#[test]
fn string_metadata_round_trips_through_gzip() {
    let text = "{\"name\":\"pkg\",\"modules\":[\"m1\",\"m2\"]}";
    let compressed = zip_metadata_str(text).unwrap();
    assert_ne!(compressed.as_slice(), text.as_bytes());
    let back = unzip_metadata_str(&compressed).unwrap();
    assert_eq!(back, text);
}

#[test]
fn byte_metadata_round_trips_through_gzip() {
    let data: Vec<u8> = (0..=255u8).cycle().take(4096).collect();
    let compressed = zip_metadata(&data).unwrap();
    let back = unzip_metadata(&compressed).unwrap();
    assert_eq!(back, data);
}

#[test]
fn garbage_is_not_a_gzip_stream() {
    assert!(unzip_metadata(b"definitely not gzip").is_err());
    assert!(unzip_metadata(b"").is_err());
}

#[test]
fn non_utf8_content_is_rejected_as_text() {
    let compressed = zip_metadata(&[0xff, 0xfe, 0x00, 0x80]).unwrap();
    assert!(unzip_metadata_str(&compressed).is_err());
    assert!(unzip_metadata(&compressed).is_ok());
}

#[test]
fn abort_info_is_plain_data() {
    let a = AbortInfo {
        reason_name: "EINSUFFICIENT_BALANCE".to_string(),
        description: "Not enough coins to complete transaction".to_string(),
    };
    let b = a.clone();
    assert_eq!(a, b);
    assert_eq!(b.reason_name, "EINSUFFICIENT_BALANCE");
}
