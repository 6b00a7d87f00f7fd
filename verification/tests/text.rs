use artaverse::{starts_with_uri_scheme, u32_list_debug, u64_to_decimal};

#[test]
fn decimal_writes_numbers_as_to_string_does() {
    for n in [0u64, 7, 10, 99, 100, 1234567890, u64::MAX] {
        assert_eq!(u64_to_decimal(n), n.to_string());
    }
}

#[test]
fn list_is_written_as_debug_writes_a_vec() {
    for v in [vec![], vec![5u32], vec![4, 3, 2], vec![0, 10000, u32::MAX]] {
        assert_eq!(u32_list_debug(&v), format!("{:?}", v));
    }
}

#[test]
fn uri_scheme_is_recognised() {
    assert!(starts_with_uri_scheme(&"ipfs://Sdjbfsdkjfgbdkfjgbdsfgbk".to_string()));
    assert!(starts_with_uri_scheme(&"https://ipfs.io/ipfs/kaka".to_string()));
    assert!(starts_with_uri_scheme(&"http://ipfs/link".to_string()));
    assert!(starts_with_uri_scheme(&"a+b-c.d:rest".to_string()));
    assert!(!starts_with_uri_scheme(&"Fhgihgkdfhgdfgdgdfgdfhfvbnykorkjojroiwoiwmgdmg".to_string()));
    assert!(!starts_with_uri_scheme(&"".to_string()));
    assert!(!starts_with_uri_scheme(&":no-scheme".to_string()));
    assert!(!starts_with_uri_scheme(&"1pfs://digit-first".to_string()));
    assert!(!starts_with_uri_scheme(&"ip fs://space".to_string()));
    assert!(!starts_with_uri_scheme(&"ipfs".to_string()));
}
