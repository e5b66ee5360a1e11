use native_db::data::{Data, Key, KEY_SIZE};
use native_db::text::push_decimal;

#[test]
fn a_key_is_sixteen_bytes() {
    assert_eq!(KEY_SIZE, 16);
    let mut bytes = [0u8; 16];
    bytes[15] = 1;
    let key = Key::from_bytes(bytes);
    assert_eq!(key.to_bytes(), bytes);
    assert_eq!(key.as_ref(), &bytes[..]);
}

#[test]
fn a_short_key_is_filled_up_with_zeros() {
    let key = Key::from_slice(&[1, 2, 3]).ok().unwrap();
    assert_eq!(key.to_bytes(), [1, 2, 3, 0, 0, 0, 0, 0, 0, 0, 0, 0, 0, 0, 0, 0]);
    let key = Key::from_vec(Vec::new()).ok().unwrap();
    assert_eq!(key.to_bytes(), [0; 16]);
    let full: Vec<u8> = (1..=16).collect();
    let key = Key::from_vec(full.clone()).ok().unwrap();
    assert_eq!(key.as_ref(), &full[..]);
}

#[test]
fn a_long_key_is_an_error() {
    let long = vec![7u8; 17];
    let e = match Key::from_slice(&long) {
        Ok(_) => panic!("a key of 17 bytes was taken"),
        Err(e) => e,
    };
    assert_eq!(
        e.causes(),
        &vec!["key length `17` is greater than the max allowed `16`".to_string()]
    );
    let e = match Key::from_vec(vec![0u8; 1024]) {
        Ok(_) => panic!("a key of 1024 bytes was taken"),
        Err(e) => e,
    };
    assert_eq!(
        e.causes(),
        &vec!["key length `1024` is greater than the max allowed `16`".to_string()]
    );
}

#[test]
fn a_key_comes_back_from_its_bytes() {
    let mut bytes = [0u8; 16];
    bytes[0] = 200;
    bytes[15] = 1;
    let key = Key::from_bytes(bytes);
    let stored: Vec<u8> = key.as_ref().to_vec();
    let back = Key::from_vec(stored).ok().unwrap();
    assert_eq!(back.to_bytes(), bytes);
}

#[test]
fn a_record_holds_key_and_payload() {
    let data = Data { key: Key::from_bytes([9; 16]), payload: vec![1u8, 2, 3] };
    assert_eq!(data.key.to_bytes(), [9; 16]);
    assert_eq!(data.payload, vec![1, 2, 3]);
}

#[test]
fn numbers_are_written_in_decimal() {
    let cases: Vec<usize> = vec![0, 7, 9, 10, 16, 17, 99, 100, 101, 1024, 12345, 9_999_999, usize::MAX];
    for n in cases {
        let mut out = String::from("n=");
        push_decimal(&mut out, n);
        assert_eq!(out, format!("n={}", n));
    }
}
