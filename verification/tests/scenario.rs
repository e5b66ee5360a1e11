use native_db::calls::{
    db_last_result, db_read_advance, db_read_begin, db_read_end, db_read_next, db_store_close,
    db_store_open, db_write_begin, db_write_end, db_write_set, guard, Argument, DbKey, DbReader,
    DbReaderHandle, DbStore, DbStoreHandle, DbWriter, DbWriterHandle, ReadStep,
};
use native_db::error::Error;
use native_db::handle::{HandleTable, Out, Ref};
use native_db::result::{CallOutcome, DbResult, LastResultSlot};
use native_db::store::reader::{Fetched, Reader};
use native_db::thread_bound::{
    get_thread_id, Garbage, Registry, ThreadBound, ThreadIds, ThreadSlot,
};
use std::collections::BTreeMap;
use std::sync::{Arc, Mutex};

// A store in memory, which keeps its records in the order of their keys.
#[derive(Clone)]
struct MemStore {
    records: Arc<Mutex<BTreeMap<Vec<u8>, Vec<u8>>>>,
}

// A write gathers its records and hands them to the store when it ends.
struct MemWriter {
    store: MemStore,
    batch: Vec<(Vec<u8>, Vec<u8>)>,
}

// A cursor over the records as they were when the read began.
struct MemCursor {
    records: Vec<(Vec<u8>, Vec<u8>)>,
    position: usize,
}

impl MemCursor {
    fn fetch(&mut self) -> Fetched {
        let next = self.records.get(self.position).cloned();
        self.position += 1;
        next.map(Ok)
    }
}

// The state that the process and the calling thread keep for the boundary.
struct Boundary {
    thread: usize,
    slot: LastResultSlot,
    registry: Registry<Reader<MemCursor>>,
    garbage: Garbage,
    stores: HandleTable<DbStore<MemStore>>,
    writers: HandleTable<ThreadBound<DbWriter<MemWriter>>>,
    readers: HandleTable<ThreadBound<DbReader<MemCursor>>>,
}

fn boundary() -> Boundary {
    let mut ids = ThreadIds::new();
    let mut local = ThreadSlot::new();
    let thread = get_thread_id(&mut local, &mut ids);
    Boundary {
        thread,
        slot: LastResultSlot::new(),
        registry: Registry::new(thread),
        garbage: Garbage::new(),
        stores: HandleTable::new(),
        writers: HandleTable::new(),
        readers: HandleTable::new(),
    }
}

fn read_next(
    b: &mut Boundary,
    reader: &mut DbReaderHandle<MemCursor>,
    key: &mut DbKey,
    value_buf: &mut [u8],
    actual_value_len: &mut usize,
) -> DbResult {
    b.slot.begin();
    let outcome = loop {
        let step = db_read_next(
            reader,
            &b.readers,
            &b.registry,
            key,
            value_buf,
            actual_value_len,
            &mut b.slot,
        );
        let delivered = match step {
            ReadStep::Ended(outcome) => break outcome,
            ReadStep::Delivered => true,
            ReadStep::Exhausted => false,
        };
        let thread = b.registry.thread_id();
        let fetched = reader
            .deref_mut(&mut b.readers, thread)
            .inner
            .deref_mut(&mut b.registry)
            .cursor_mut()
            .fetch();
        match db_read_advance(reader, &mut b.readers, &mut b.registry, delivered, fetched, &mut b.slot) {
            Some(outcome) => break outcome,
            None => {}
        }
    };
    DbResult::catch(outcome, &mut b.slot)
}

#[test]
fn write_a_record_and_read_it_back() {
    let mut b = boundary();
    let engine = MemStore { records: Arc::new(Mutex::new(BTreeMap::new())) };

    // Open the store.
    let mut store: DbStoreHandle<MemStore> = DbStoreHandle::null();
    b.slot.begin();
    let args = [
        Argument::new("path", &Ref::<u8>::from_addr(0x1000)),
        Argument::new("path_len", &4usize),
        Argument::new("store", &Out::<usize>::from_addr(0x2000)),
    ];
    assert_eq!(guard(&args, &mut b.slot), None);
    let opened = db_store_open(Ok(engine.clone()), &mut b.stores, &mut store, &mut b.slot);
    let opened = DbResult::catch(CallOutcome::Returned(opened), &mut b.slot);
    assert!(opened.is_ok());

    // Begin a write, set K1 to "hello", and end the write.
    let mut writer: DbWriterHandle<MemWriter> = DbWriterHandle::null();
    let begun = MemWriter { store: store.deref(&b.stores).inner.clone(), batch: Vec::new() };
    b.slot.begin();
    let r = db_write_begin(Ok(begun), b.thread, &mut b.writers, &mut writer, &mut b.slot);
    assert!(DbResult::catch(CallOutcome::Returned(r), &mut b.slot).is_ok());

    let mut k1 = DbKey([0; 16]);
    k1.0[15] = 1;
    b.slot.begin();
    let set = match db_write_set(&mut writer, &mut b.writers, b.thread, &k1, b"hello") {
        Ok((write, data)) => {
            write.inner.batch.push((data.key.as_ref().to_vec(), data.payload.to_vec()));
            CallOutcome::Returned(DbResult::from_result(Ok(()), &mut b.slot))
        }
        Err(payload) => CallOutcome::Panicked(payload),
    };
    assert!(DbResult::catch(set, &mut b.slot).is_ok());

    b.slot.begin();
    let r = db_write_end(
        writer,
        &mut b.writers,
        |write| {
            let mut records = write
                .inner
                .store
                .records
                .lock()
                .map_err(|_| Error::msg("failed to flush database".to_string()))?;
            for (key, value) in write.inner.batch {
                records.insert(key, value);
            }
            Ok(())
        },
        &mut b.slot,
    );
    assert!(DbResult::catch(CallOutcome::Returned(r), &mut b.slot).is_ok());

    // Begin a read.
    let mut reader: DbReaderHandle<MemCursor> = DbReaderHandle::null();
    let snapshot: Vec<(Vec<u8>, Vec<u8>)> = engine
        .records
        .lock()
        .unwrap()
        .iter()
        .map(|(key, value)| (key.clone(), value.clone()))
        .collect();
    b.slot.begin();
    let r = db_read_begin(
        Ok(MemCursor { records: snapshot, position: 0 }),
        &mut b.registry,
        Some(&mut b.garbage),
        &mut b.readers,
        &mut reader,
        &mut b.slot,
    );
    assert!(DbResult::catch(CallOutcome::Returned(r), &mut b.slot).is_ok());

    // The first read yields K1 and "hello".
    let mut key = DbKey([0xff; 16]);
    let mut value_buf = [0u8; 32];
    let mut len = 0usize;
    let r = read_next(&mut b, &mut reader, &mut key, &mut value_buf, &mut len);
    assert!(r.is_ok());
    assert_eq!(key.0, [0, 0, 0, 0, 0, 0, 0, 0, 0, 0, 0, 0, 0, 0, 0, 1]);
    assert_eq!(len, 5);
    assert_eq!(&value_buf[..len], b"hello");

    // The second read is done.
    let r = read_next(&mut b, &mut reader, &mut key, &mut value_buf, &mut len);
    assert!(r.is_done());

    // The last result of the thread is that of the last call.
    let mut message = [0u8; 16];
    let mut message_len = 9usize;
    let mut last = DbResult::ok();
    let r = db_last_result(&b.slot, &mut message, &mut message_len, &mut last);
    assert!(r.is_ok());
    assert!(last.is_done());
    assert_eq!(message_len, 0);

    // End the read and close the store.
    b.slot.begin();
    let outcome = db_read_end(reader, &mut b.readers, &mut b.registry, &mut b.garbage, &mut b.slot);
    assert!(DbResult::catch(outcome, &mut b.slot).is_ok());
    assert_eq!(b.registry.len(), 0);

    b.slot.begin();
    let r = db_store_close(store, &mut b.stores, |_store| Ok(()), &mut b.slot);
    assert!(DbResult::catch(CallOutcome::Returned(r), &mut b.slot).is_ok());
}

#[test]
fn a_large_value_is_read_with_a_second_larger_buffer() {
    let mut b = boundary();
    let value: Vec<u8> = (0..100u8).collect();
    let mut k1 = [0u8; 16];
    k1[15] = 1;
    let mut k2 = [0u8; 16];
    k2[15] = 2;

    let mut reader: DbReaderHandle<MemCursor> = DbReaderHandle::null();
    let records = vec![(k1.to_vec(), value.clone()), (k2.to_vec(), b"x".to_vec())];
    let r = db_read_begin(
        Ok(MemCursor { records, position: 0 }),
        &mut b.registry,
        None,
        &mut b.readers,
        &mut reader,
        &mut b.slot,
    );
    assert!(r.is_ok());

    let mut key = DbKey([0; 16]);
    let mut small = [0u8; 16];
    let mut len = 0usize;
    let r = read_next(&mut b, &mut reader, &mut key, &mut small, &mut len);
    assert!(r.is_buffer_too_small());
    assert_eq!(len, 100);
    assert_eq!(
        b.slot.last_result(),
        Some((DbResult::buffer_too_small(), Some("a supplied buffer was too small")))
    );

    let mut large = vec![0u8; len];
    let r = read_next(&mut b, &mut reader, &mut key, &mut large, &mut len);
    assert!(r.is_ok());
    assert_eq!(len, 100);
    assert_eq!(large, value);
    assert_eq!(key.0, k1);

    let r = read_next(&mut b, &mut reader, &mut key, &mut large, &mut len);
    assert!(r.is_ok());
    assert_eq!(len, 1);
    assert_eq!(large[0], b'x');
    assert_eq!(key.0, k2);

    let r = read_next(&mut b, &mut reader, &mut key, &mut large, &mut len);
    assert!(r.is_done());
    // Done stays done.
    let r = read_next(&mut b, &mut reader, &mut key, &mut large, &mut len);
    assert!(r.is_done());
}
