use sf_mini_core::{sf_core_full_version, sf_core_full_version_c_bytes};

#[test]
fn test_sf_core_full_version() {
    let version = sf_core_full_version();
    assert!(version.len() > 0);
    assert!(!version.is_empty());
    assert_eq!(version, "0.0.1");
}

#[test]
fn test_full_version_stable_across_calls() {
    let first = sf_core_full_version();
    let second = sf_core_full_version();
    assert_eq!(first, second);
    assert_eq!(first.as_bytes(), second.as_bytes());
    assert_eq!(sf_core_full_version_c_bytes(), sf_core_full_version_c_bytes());
}

#[test]
fn test_c_bytes_exact_value() {
    let bytes = sf_core_full_version_c_bytes();
    assert_eq!(bytes.as_slice(), b"0.0.1\0");
}

#[test]
fn test_c_bytes_null_terminated_and_decodes() {
    let bytes = sf_core_full_version_c_bytes();
    let version = sf_core_full_version();
    assert_eq!(bytes.len(), version.len() + 1);
    assert_eq!(*bytes.last().unwrap(), 0u8);
    let body = &bytes[..bytes.len() - 1];
    assert!(!body.is_empty());
    assert!(body.iter().all(|&byte| byte != 0));
    assert_eq!(String::from_utf8(body.to_vec()).unwrap(), "0.0.1");
}
