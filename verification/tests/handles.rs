use native_db::calls::{DbDeleterHandle, DbReaderHandle, DbStoreHandle, DbWriterHandle};
use native_db::handle::{HandleExclusive, HandleOwned, HandleShared, HandleTable, Out, Ref, RefMut};
use native_db::is_null::IsNull;
use native_db::thread_bound::ThreadBound;

fn is_send<T: Send>() {}

fn is_sync<T: Sync>() {}

// A store that any thread may use, and a cursor that may move between threads.
struct Engine {
    name: String,
}

struct Cursor {
    at: usize,
}

#[test]
fn lib_assert_send_sync() {
    is_send::<DbStoreHandle<Engine>>();
    is_sync::<DbStoreHandle<Engine>>();

    is_send::<DbReaderHandle<Cursor>>();
    is_sync::<DbReaderHandle<Cursor>>();

    is_send::<DbWriterHandle<Engine>>();
    is_sync::<DbWriterHandle<Engine>>();

    is_send::<DbDeleterHandle<Engine>>();
    is_sync::<DbDeleterHandle<Engine>>();
}

#[test]
fn mod_assert_send_sync() {
    is_send::<DbStoreHandle<Engine>>();

    is_send::<DbReaderHandle<Cursor>>();
}

#[test]
fn shared_handle_round_trip() {
    let mut table: HandleTable<Engine> = HandleTable::new();
    assert!(table.has_room());
    let handle = HandleShared::allocate(Engine { name: "a".to_string() }, &mut table);
    assert!(!handle.is_null());
    assert_ne!(handle.as_ptr(), 0);
    assert!(table.contains(handle.as_ptr()));
    assert_eq!(handle.deref(&table).name, "a");

    let name = HandleShared::dealloc(handle, &mut table, |engine| engine.name);
    assert_eq!(name, "a");
    assert!(!table.contains(1));
}

#[test]
fn addresses_are_not_handed_out_twice() {
    let mut table: HandleTable<Engine> = HandleTable::new();
    let first = HandleShared::allocate(Engine { name: "a".to_string() }, &mut table);
    let first_addr = first.as_ptr();
    HandleShared::dealloc(first, &mut table, |_| ());
    let second = HandleShared::allocate(Engine { name: "b".to_string() }, &mut table);
    assert_ne!(second.as_ptr(), first_addr);
    assert!(!table.contains(first_addr));
    assert_eq!(second.deref(&table).name, "b");
}

#[test]
fn null_handles_and_addresses() {
    assert!(HandleShared::<Engine>::null().is_null());
    assert!(HandleExclusive::<Cursor>::null().is_null());
    assert!(HandleShared::<Engine>::from_addr(0).is_null());
    assert!(!HandleShared::<Engine>::from_addr(8).is_null());
    assert!(Ref::<u8>::from_addr(0).is_null());
    assert!(!Ref::<u8>::from_addr(4096).is_null());
    assert!(RefMut::<u8>::from_addr(0).is_null());
    assert!(!RefMut::<u8>::from_addr(1).is_null());
    assert!(Out::<usize>::from_addr(0).is_null());
    assert!(!Out::<usize>::from_addr(usize::MAX).is_null());
}

#[test]
fn numbers_flags_and_keys_are_never_null() {
    assert!(!0usize.is_null());
    assert!(!0isize.is_null());
    assert!(!0u8.is_null());
    assert!(!0u16.is_null());
    assert!(!0u32.is_null());
    assert!(!0u64.is_null());
    assert!(!0u128.is_null());
    assert!(!0i8.is_null());
    assert!(!0i16.is_null());
    assert!(!0i32.is_null());
    assert!(!0i64.is_null());
    assert!(!0i128.is_null());
    assert!(!false.is_null());
    assert!(!native_db::calls::DbKey([0; 16]).is_null());
}

#[test]
fn exclusive_handle_is_bound_to_its_thread() {
    let thread_a = 7;
    let thread_b = 8;
    let mut table: HandleTable<ThreadBound<Cursor>> = HandleTable::new();
    let mut handle = HandleExclusive::allocate(Cursor { at: 3 }, thread_a, &mut table);

    assert!(handle.is_accessible(&table, thread_a));
    assert!(!handle.is_accessible(&table, thread_b));
    assert_eq!(handle.deref(&table, thread_a).at, 3);
    handle.deref_mut(&mut table, thread_a).at = 4;
    assert_eq!(handle.deref(&table, thread_a).at, 4);

    // Giving the handle up is no access: any thread may do it.
    let at = HandleExclusive::dealloc(handle, &mut table, |cursor| cursor.at);
    assert_eq!(at, 4);
    assert!(!table.contains(1));
}

#[test]
fn owned_handle_is_an_exclusive_handle() {
    let mut table: HandleTable<ThreadBound<Cursor>> = HandleTable::new();
    let handle: HandleOwned<Cursor> = HandleOwned::allocate(Cursor { at: 1 }, 0, &mut table);
    assert!(handle.is_accessible(&table, 0));
    assert!(!HandleOwned::<Cursor>::from_addr(2).is_accessible(&table, 0));
}

#[test]
fn thread_bound_checks_the_thread() {
    let mut bound = ThreadBound::new(5u32, 1);
    assert!(bound.check(1));
    assert!(!bound.check(2));
    assert_eq!(*bound.deref(1), 5);
    *bound.deref_mut(1) = 6;
    assert_eq!(bound.into_inner(), 6);
}
