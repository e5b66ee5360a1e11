use native_db::error::Error;
use native_db::handle::HandleTable;
use native_db::store::reader::{next, Reader};

#[test]
fn a_fetch_at_the_end_gives_no_record() {
    assert!(next(None).ok().unwrap().is_none());
}

#[test]
fn a_fetch_gives_the_record_with_its_key_filled_up() {
    let data = next(Some(Ok((vec![1, 2], vec![9, 9, 9])))).ok().unwrap().unwrap();
    assert_eq!(data.key.to_bytes(), [1, 2, 0, 0, 0, 0, 0, 0, 0, 0, 0, 0, 0, 0, 0, 0]);
    assert_eq!(data.payload, vec![9, 9, 9]);
}

#[test]
fn a_fetch_that_failed_gives_the_error_of_the_store() {
    let failed = next(Some(Err(Error::fail(vec!["outer".to_string(), "inner".to_string()]))));
    let e = failed.err().unwrap();
    assert_eq!(e.causes(), &vec!["outer".to_string(), "inner".to_string()]);
}

#[test]
fn a_fetch_with_a_long_key_is_an_error() {
    let e = next(Some(Ok((vec![0u8; 20], Vec::new())))).err().unwrap();
    assert_eq!(
        e.causes(),
        &vec!["key length `20` is greater than the max allowed `16`".to_string()]
    );
}

#[test]
fn a_reader_moves_over_what_it_is_given() {
    let mut reader = Reader::begin(0u32);
    assert!(reader.current_data().is_none());
    assert_eq!(reader.with_current(|data| data.key.to_bytes()), None);

    assert_eq!(reader.move_next(Some(Ok((vec![7u8; 16], b"first".to_vec())))).ok(), Some(true));
    *reader.cursor_mut() += 1;
    let seen = reader.with_current(|mut data| {
        let mut buf = [0u8; 3];
        let n = data.payload.read(&mut buf);
        (data.key.to_bytes(), buf, n)
    });
    assert_eq!(seen, Some(([7u8; 16], *b"fir", 3)));
    // Every look at the record starts at the front of its payload.
    let again = reader.with_current(|mut data| {
        let mut buf = [0u8; 8];
        let n = data.payload.read(&mut buf);
        buf[..n].to_vec()
    });
    assert_eq!(again, Some(b"first".to_vec()));

    // Where the store fails the reader stays on its record.
    assert!(reader.move_next(Some(Err(Error::msg("broken".to_string())))).is_err());
    assert!(reader.move_next(Some(Ok((vec![0u8; 17], Vec::new())))).is_err());
    assert_eq!(reader.with_current(|data| data.key.to_bytes()), Some([7u8; 16]));

    assert_eq!(reader.move_next(None).ok(), Some(false));
    assert!(reader.current_data().is_none());
    assert!(reader.complete().is_ok());
    assert_eq!(*reader.cursor_mut(), 1);
}

#[test]
fn a_table_keeps_its_values_under_their_addresses() {
    let mut table: HandleTable<String> = HandleTable::new();
    assert!(!table.contains(0));
    assert!(!table.contains(1));
    let a = table.insert("a".to_string());
    let b = table.insert("b".to_string());
    assert_eq!((a, b), (1, 2));
    assert_eq!(table.get(a), "a");
    table.get_mut(b).push('!');
    assert_eq!(table.get(b), "b!");
    assert_eq!(table.remove(a), "a");
    assert!(!table.contains(a));
    assert!(table.contains(b));
    assert!(!table.contains(usize::MAX));
    assert_eq!(table.insert("c".to_string()), 3);
}
