use proj::cstring::{c_string_array, c_string_bytes, CStringArray};

#[test]
fn test_empty() {
    let arr = CStringArray::new();
    assert!(arr.is_empty());
    assert_eq!(arr.len(), 0);
}

#[test]
fn test_single_string() {
    let mut arr = CStringArray::new();
    arr.push("KEY=VALUE").unwrap();
    assert_eq!(arr.len(), 1);
    assert_eq!(arr.get(0).as_slice(), b"KEY=VALUE");
}

#[test]
fn test_nul_error() {
    let mut arr = CStringArray::new();
    assert!(arr.push("invalid\0string").is_err());
}

#[test]
fn nul_error_names_first_nul_and_keeps_array() {
    let mut arr = CStringArray::new();
    arr.push("A=B").unwrap();
    let e = arr.push("ab\0c\0").unwrap_err();
    assert_eq!(e.nul_position(), 2);
    assert_eq!(e.into_vec(), b"ab\0c\0".to_vec());
    assert_eq!(arr.len(), 1);
    assert_eq!(arr.get(0).as_slice(), b"A=B");
}

#[test]
fn c_string_bytes_keeps_utf8() {
    assert_eq!(c_string_bytes("é:x").unwrap(), "é:x".as_bytes().to_vec());
    assert_eq!(c_string_bytes("").unwrap(), Vec::<u8>::new());
    assert_eq!(c_string_bytes("\0").unwrap_err().nul_position(), 0);
}

#[test]
fn c_string_array_keeps_order_and_fails_on_nul() {
    let ok = c_string_array(&vec!["ONE=1".to_string(), "TWO=2".to_string()]).unwrap();
    assert_eq!(ok.len(), 2);
    assert_eq!(ok.get(0).as_slice(), b"ONE=1");
    assert_eq!(ok.get(1).as_slice(), b"TWO=2");
    let bad = c_string_array(&vec!["ONE=1".to_string(), "T\0".to_string()]).unwrap_err();
    assert_eq!(bad.nul_position(), 1);
}
