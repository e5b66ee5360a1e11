//! The calls that the boundary offers, as they run once their arguments are
//! plain values.
//!
//! Every call first has its arguments looked over by [`guard`], and runs
//! between [`LastResultSlot::begin`] and [`DbResult::catch`]. What a call
//! needs from the store is done by the owner of the store; the functions here
//! take what the store answered and do the rest. A function that gives a
//! [`CallOutcome`] says there, as a panic, what may not be done: to touch a
//! resource from a thread that is not its own.

use crate::data::{padded, Data, Key};
use crate::error::{store_error_text, Error, ErrorReport};
use crate::handle::{HandleExclusive, HandleShared, HandleTable};
use crate::is_null::IsNull;
use crate::read::{into_fixed_buffer, zero_sized_text};
use crate::result::{
    after_return, formatted, reported, CallOutcome, DbResult, Kind, LastResultSlot, PanicPayload,
    Recorded,
};
use crate::store::reader::{fetched_record, Fetched, Reader};
use crate::thread_bound::{swept, DeferredCleanup, Garbage, Registry, ThreadBound, ThreadId, ValueId};
use vstd::prelude::*;
use vstd::string::StringExecFns;
use vstd::utf8::encode_utf8;

verus! {

/// A key as the caller hands it over: sixteen bytes.
#[derive(Clone, Copy)]
pub struct DbKey(pub [u8; 16]);

impl View for DbKey {
    type V = Seq<u8>;

    open spec fn view(&self) -> Seq<u8> {
        self.0@
    }
}

/// An open store, as the caller holds it.
pub struct DbStore<S> {
    pub inner: S,
}

/// The handle of an open store: any thread may use it.
pub type DbStoreHandle<S> = HandleShared<DbStore<S>>;

/// A read in progress, as the caller holds it. The reader itself lives in
/// the registry of the thread that began the read.
pub struct DbReader<I> {
    pub inner: DeferredCleanup<Reader<I>>,
}

/// The handle of a read in progress: only the thread that began it may use
/// it.
pub type DbReaderHandle<I> = HandleExclusive<DbReader<I>>;

/// A write in progress, as the caller holds it.
pub struct DbWriter<W> {
    pub inner: W,
}

/// The handle of a write in progress: only the thread that began it may
/// use it.
pub type DbWriterHandle<W> = HandleExclusive<DbWriter<W>>;

/// A delete in progress, as the caller holds it.
pub struct DbDeleter<D> {
    pub inner: D,
}

/// The handle of a delete in progress: only the thread that began it may
/// use it.
pub type DbDeleterHandle<D> = HandleExclusive<DbDeleter<D>>;

/// What a panic says when a resource is touched from a thread that is not
/// its own, or after it is gone.
pub open spec fn cross_thread_text() -> Seq<char> {
    "attempted to access resource from a different thread"@
}

/// What the detail says of the null argument `name`.
pub open spec fn null_text(name: Seq<char>) -> Seq<char> {
    "argument `"@ + name + "` was null"@
}

/// An argument of a call as the guard sees it: its name, and whether it is
/// null.
pub struct Argument {
    pub name: &'static str,
    pub null: bool,
}

impl Argument {
    /// The argument `value` under its name.
    pub fn new<T: IsNull>(name: &'static str, value: &T) -> (arg: Self)
        ensures
            arg.name == name,
            arg.null == value.null(),
    {
        Argument { name, null: value.is_null() }
    }
}

/// The argument at `i` is null and none before it is.
pub open spec fn is_first_null(args: Seq<Argument>, i: int) -> bool {
    &&& 0 <= i < args.len()
    &&& args[i].null
    &&& forall|j: int| 0 <= j < i ==> !args[j].null
}

/// No argument is null.
pub open spec fn none_null(args: Seq<Argument>) -> bool {
    forall|i: int| 0 <= i < args.len() ==> !args[i].null
}

/// The record of a call that was turned away because its argument `name`
/// was null.
pub open spec fn rejected(name: Seq<char>) -> (DbResult, Option<Seq<char>>) {
    (DbResult { kind: Kind::ArgumentNull }, Some(formatted(seq![null_text(name)], None)))
}

/// Looks over the arguments of a call in their order. At the first that is
/// null the call is turned away: the result says that an argument was null,
/// and the detail names it. Where none is null nothing happens, and the body
/// of the call may run.
pub fn guard(args: &[Argument], slot: &mut LastResultSlot) -> (turned_away: Option<DbResult>)
    ensures
        match turned_away {
            Some(result) => exists|i: int|
                is_first_null(args@, i) && result == rejected(args@[i].name@).0 && final(slot)@
                    == Some(rejected(args@[i].name@)),
            None => none_null(args@) && final(slot)@ == old(slot)@,
        },
{
    let n = args.len();
    let mut i: usize = 0;
    while i < n
        invariant
            n == args@.len(),
            i <= n,
            forall|j: int| 0 <= j < i ==> !args@[j].null,
            *slot == *old(slot),
        decreases n - i,
    {
        if args[i].null {
            let mut text = String::from_str("argument `");
            text.append(args[i].name);
            text.append("` was null");
            let e = ErrorReport::single(text.as_str());
            let result = DbResult::argument_null().context(&e, slot);
            assert(is_first_null(args@, i as int));
            return Some(result);
        }
        i += 1;
    }
    None
}

/// Runs a call whose body does not panic, from the look at its arguments to
/// the record of its result. With a null argument the body is never entered:
/// it need not even be able to run. The body is handed the record of the
/// thread, in which nothing is recorded yet, and hands it back.
pub fn dispatch<F: FnOnce(LastResultSlot) -> (DbResult, LastResultSlot)>(
    args: &[Argument],
    body: F,
    slot: &mut LastResultSlot,
) -> (r: DbResult)
    requires
        none_null(args@) ==> forall|given: LastResultSlot| given@ is None ==> body.requires((given,)),
    ensures
        !none_null(args@) ==> exists|i: int|
            is_first_null(args@, i) && r == rejected(args@[i].name@).0 && final(slot)@ == Some(
                rejected(args@[i].name@),
            ),
        none_null(args@) ==> exists|given: LastResultSlot, out: (DbResult, LastResultSlot)|
            given@ is None && body.ensures((given,), out) && r == out.0 && final(slot)@ == Some(
                after_return(out.1@, out.0),
            ),
{
    slot.begin();
    match guard(args, slot) {
        Some(result) => DbResult::catch(CallOutcome::Returned(result), slot),
        None => {
            let given = LastResultSlot::new();
            let (returned, mut after) = body(given);
            core::mem::swap(slot, &mut after);
            DbResult::catch(CallOutcome::Returned(returned), slot)
        },
    }
}

/// The bytes of the detail that a query shows, if it shows one.
pub open spec fn detail_bytes(record: Recorded) -> Option<Seq<u8>> {
    match reported(record) {
        Some((_, Some(detail))) => Some(encode_utf8(detail)),
        _ => None,
    }
}

/// The length that a query of the last result reports: that of the detail,
/// or zero where there is none.
pub open spec fn query_len(record: Recorded) -> nat {
    match detail_bytes(record) {
        Some(bytes) => bytes.len(),
        None => 0,
    }
}

/// How a query of the last result ends for a buffer of `capacity` bytes: the
/// detail must fit.
pub open spec fn query_kind(record: Recorded, capacity: nat) -> Kind {
    if capacity < query_len(record) {
        Kind::BufferTooSmall
    } else {
        Kind::Success
    }
}

/// The last result that a query gives: a success for a thread that has made
/// no call.
pub open spec fn query_value(record: Recorded) -> DbResult {
    match record {
        Some((value, _)) => value,
        None => DbResult { kind: Kind::Success },
    }
}

/// Fetches the last result of the calling thread and the detail of its error.
///
/// `result` gets the last result and `actual_message_len` the length of the
/// detail in bytes. The detail is copied to the front of `message_buf` if it
/// fits; if not, the buffer is left as it is and the call says that it is too
/// small. The record is only read, so the query can be repeated.
pub fn db_last_result(
    slot: &LastResultSlot,
    message_buf: &mut [u8],
    actual_message_len: &mut usize,
    result: &mut DbResult,
) -> (r: DbResult)
    ensures
        r.kind == query_kind(slot@, old(message_buf)@.len()),
        *final(result) == query_value(slot@),
        *final(actual_message_len) == query_len(slot@),
        final(message_buf)@.len() == old(message_buf)@.len(),
        final(message_buf)@ == match detail_bytes(slot@) {
            Some(bytes) if bytes.len() <= old(message_buf)@.len() => bytes + old(message_buf)@.skip(
                bytes.len() as int,
            ),
            _ => old(message_buf)@,
        },
{
    let (value, error) = match slot.last_result() {
        Some(shown) => shown,
        None => (DbResult::ok(), None),
    };
    *result = value;
    match error {
        Some(error) => {
            let bytes = error.as_bytes();
            let n = bytes.len();
            *actual_message_len = n;
            if message_buf.len() < n {
                return DbResult::buffer_too_small();
            }
            let ghost before = message_buf@;
            let mut i: usize = 0;
            while i < n
                invariant
                    n == bytes@.len(),
                    i <= n,
                    n <= message_buf@.len(),
                    message_buf@.len() == before.len(),
                    message_buf@ == bytes@.take(i as int) + before.skip(i as int),
                decreases n - i,
            {
                message_buf[i] = bytes[i];
                i += 1;
            }
        },
        None => {
            *actual_message_len = 0;
        },
    }
    DbResult::ok()
}

/// Hands out the handle of a store that was opened, or records why it could
/// not be opened. The caller gets either a live handle or none at all.
pub fn db_store_open<S: Send + Sync + 'static>(
    opened: Result<S, Error>,
    stores: &mut HandleTable<DbStore<S>>,
    store: &mut DbStoreHandle<S>,
    slot: &mut LastResultSlot,
) -> (r: DbResult)
    requires
        old(stores).issued() < usize::MAX,
    ensures
        match opened {
            Ok(inner) => {
                &&& r.kind == Kind::Success
                &&& final(slot)@ == old(slot)@
                &&& final(store).addr() != 0
                &&& !old(stores)@.contains_key(final(store).addr())
                &&& final(stores)@ == old(stores)@.insert(final(store).addr(), DbStore { inner })
            },
            Err(e) => {
                &&& r.kind == Kind::InternalError
                &&& final(slot)@ == Some((r, Some(formatted(seq![store_error_text()] + e@, None))))
                &&& *final(store) == *old(store)
                &&& final(stores)@ == old(stores)@
            },
        },
{
    match opened {
        Ok(inner) => {
            let handle = HandleShared::allocate(DbStore { inner }, stores);
            *store = handle;
            DbResult::ok()
        },
        Err(e) => DbResult::from(&e.report(), slot),
    }
}

/// Gives up the handle of a store and lets `close` flush the store for the
/// last time. The handle must be live; the caller must not present it again.
pub fn db_store_close<S: Send + Sync, F: FnOnce(DbStore<S>) -> Result<(), Error>>(
    store: DbStoreHandle<S>,
    stores: &mut HandleTable<DbStore<S>>,
    close: F,
    slot: &mut LastResultSlot,
) -> (r: DbResult)
    requires
        old(stores)@.contains_key(store.addr()),
        close.requires((old(stores)@[store.addr()],)),
    ensures
        final(stores)@ == old(stores)@.remove(store.addr()),
        exists|closed: Result<(), Error>|
            close.ensures((old(stores)@[store.addr()],), closed) && match closed {
                Ok(_) => r.kind == Kind::Success && final(slot)@ == old(slot)@,
                Err(e) => r.kind == Kind::InternalError && final(slot)@ == Some(
                    (r, Some(formatted(seq![store_error_text()] + e@, None))),
                ),
            },
{
    let closed = HandleShared::dealloc(store, stores, close);
    DbResult::from_result(closed, slot)
}

/// The reader that the handle `reader` stands for on the calling thread,
/// whose registry is `registry`; none where the thread is not the one that
/// began the read, or the reader is gone.
pub open spec fn presented<I>(
    reader: &DbReaderHandle<I>,
    readers: &HandleTable<ThreadBound<DbReader<I>>>,
    registry: &Registry<Reader<I>>,
) -> Option<Reader<I>> {
    if reader.accessible(readers, registry.owner()) && readers@[reader.addr()]@.inner.valid(
        registry,
    ) {
        Some(registry@[readers@[reader.addr()]@.inner.id()])
    } else {
        None
    }
}

/// Begins a read: registers a reader for the cursor that the store gave on
/// the calling thread, whose registry is `registry`, and hands out its
/// handle; or records why the store gave none. The caller gets either a live
/// handle or none at all.
pub fn db_read_begin<I: Send + 'static>(
    begun: Result<I, Error>,
    registry: &mut Registry<Reader<I>>,
    garbage: Option<&mut Garbage>,
    readers: &mut HandleTable<ThreadBound<DbReader<I>>>,
    reader: &mut DbReaderHandle<I>,
    slot: &mut LastResultSlot,
) -> (r: DbResult)
    requires
        old(registry).wf(),
        old(registry).next_value() < usize::MAX,
        old(readers).issued() < usize::MAX,
    ensures
        final(registry).wf(),
        final(registry).owner() == old(registry).owner(),
        match begun {
            Ok(iter) => {
                &&& r.kind == Kind::Success
                &&& final(slot)@ == old(slot)@
                &&& final(reader).addr() != 0
                &&& !old(readers)@.contains_key(final(reader).addr())
                &&& final(readers)@.dom() == old(readers)@.dom().insert(final(reader).addr())
                &&& forall|addr: usize|
                    old(readers)@.contains_key(addr) ==> final(readers)@[addr] == old(readers)@[addr]
                &&& final(registry)@.contains_key(old(registry).next_value())
                &&& final(registry).next_value() == old(registry).next_value() + 1
                &&& match presented(final(reader), final(readers), final(registry)) {
                    Some(fresh) => fresh.cursor() == iter && fresh.current() is None,
                    None => false,
                }
            },
            Err(e) => {
                &&& r.kind == Kind::InternalError
                &&& final(slot)@ == Some((r, Some(formatted(seq![store_error_text()] + e@, None))))
                &&& *final(reader) == *old(reader)
                &&& final(readers)@ == old(readers)@
                &&& final(registry)@ == old(registry)@
                &&& final(registry).next_value() == old(registry).next_value()
            },
        },
        match garbage {
            Some(table) => {
                &&& forall|other: ThreadId|
                    other != old(registry).owner() ==> final(table).pending(other) == table.pending(
                        other,
                    )
                &&& match begun {
                    Ok(_) => {
                        &&& final(table).pending(old(registry).owner()) == Seq::<ValueId>::empty()
                        &&& final(registry)@.remove(old(registry).next_value()) == swept(
                            old(registry)@,
                            table.pending(old(registry).owner()),
                        )
                    },
                    Err(_) => final(table).pending(old(registry).owner()) == table.pending(
                        old(registry).owner(),
                    ),
                }
            },
            None => begun is Ok ==> final(registry)@.remove(old(registry).next_value()) == old(
                registry,
            )@,
        },
{
    match begun {
        Ok(iter) => {
            let current = registry.thread_id();
            let inner = DeferredCleanup::new(Reader::begin(iter), registry, garbage);
            let handle = HandleExclusive::allocate(DbReader { inner }, current, readers);
            *reader = handle;
            DbResult::ok()
        },
        Err(e) => DbResult::from(&e.report(), slot),
    }
}

/// How far a read of the next record got.
pub enum ReadStep {
    /// The call is over, with this outcome.
    Ended(CallOutcome),
    /// The record that the reader stands on has been handed over. The reader
    /// has to move on before the call is over.
    Delivered,
    /// The reader stands on no record: it is before the first or behind the
    /// last. It has to move on before anything can be read.
    Exhausted,
}

/// Reads the record that the reader stands on into the buffers of the
/// caller.
///
/// Where the reader stands on a record: the length of its payload goes to
/// `actual_value_len`; if the payload fits into `value_buf`, the buffer and
/// `key` get the record and the reader has to move on; if it does not, the
/// call is over and says that the buffer is too small. Where it stands on
/// none, the reader has to move on first. On a thread that did not begin the
/// read the call ends in a panic.
pub fn db_read_next<I: Send>(
    reader: &DbReaderHandle<I>,
    readers: &HandleTable<ThreadBound<DbReader<I>>>,
    registry: &Registry<Reader<I>>,
    key: &mut DbKey,
    value_buf: &mut [u8],
    actual_value_len: &mut usize,
    slot: &mut LastResultSlot,
) -> (step: ReadStep)
    requires
        readers@.contains_key(reader.addr()),
    ensures
        final(value_buf)@.len() == old(value_buf)@.len(),
        match presented(reader, readers, registry) {
            None => {
                &&& step matches ReadStep::Ended(CallOutcome::Panicked(payload))
                &&& payload.message() == Some(cross_thread_text())
                &&& final(slot)@ == old(slot)@
                &&& *final(key) == *old(key)
                &&& *final(actual_value_len) == *old(actual_value_len)
                &&& final(value_buf)@ == old(value_buf)@
            },
            Some(standing) => match standing.current() {
                None => {
                    &&& step is Exhausted
                    &&& final(slot)@ == old(slot)@
                    &&& *final(key) == *old(key)
                    &&& *final(actual_value_len) == *old(actual_value_len)
                    &&& final(value_buf)@ == old(value_buf)@
                },
                Some((record_key, payload)) => if old(value_buf)@.len() == 0 {
                    &&& step matches ReadStep::Ended(CallOutcome::Returned(result))
                    &&& result.kind == Kind::InternalError
                    &&& final(slot)@ == Some((result, Some(formatted(seq![zero_sized_text()], None))))
                    &&& *final(key) == *old(key)
                    &&& *final(actual_value_len) == *old(actual_value_len)
                } else if payload.len() > old(value_buf)@.len() {
                    &&& step matches ReadStep::Ended(CallOutcome::Returned(result))
                    &&& result.kind == Kind::BufferTooSmall
                    &&& final(slot)@ == old(slot)@
                    &&& *final(key) == *old(key)
                    &&& *final(actual_value_len) == payload.len()
                } else {
                    &&& step is Delivered
                    &&& final(slot)@ == old(slot)@
                    &&& final(key)@ == record_key
                    &&& *final(actual_value_len) == payload.len()
                    &&& final(value_buf)@ == payload + old(value_buf)@.skip(payload.len() as int)
                },
            },
        },
{
    let current = registry.thread_id();
    if !reader.is_accessible(readers, current) {
        return ReadStep::Ended(
            CallOutcome::Panicked(
                PanicPayload::Literal("attempted to access resource from a different thread"),
            ),
        );
    }
    let ticket = &reader.deref(readers, current).inner;
    if !ticket.is_valid(registry) {
        return ReadStep::Ended(
            CallOutcome::Panicked(
                PanicPayload::Literal("attempted to access resource from a different thread"),
            ),
        );
    }
    match ticket.deref(registry).current_data() {
        Some(mut data) => {
            let result = into_fixed_buffer(&mut data, value_buf, key, actual_value_len, slot);
            if result.is_ok() {
                ReadStep::Delivered
            } else {
                // Anything but a success ends the call: most likely the
                // buffer of the caller was too small.
                ReadStep::Ended(CallOutcome::Returned(result))
            }
        },
        None => ReadStep::Exhausted,
    }
}

/// Moves the reader on to what the store's cursor gave, after a read that
/// could not end the call by itself, and says how the call ends; `None`
/// where the record has yet to be read.
///
/// After a record was delivered the call is a success whatever comes next.
/// After the reader stood on none the call is done if the store has no more,
/// and else goes on to read the record. Where the store failed the call ends
/// in an internal error and the reader stays where it is.
pub fn db_read_advance<I: Send>(
    reader: &mut DbReaderHandle<I>,
    readers: &mut HandleTable<ThreadBound<DbReader<I>>>,
    registry: &mut Registry<Reader<I>>,
    delivered: bool,
    fetched: Fetched,
    slot: &mut LastResultSlot,
) -> (outcome: Option<CallOutcome>)
    requires
        old(readers)@.contains_key(old(reader).addr()),
    ensures
        *final(reader) == *old(reader),
        final(readers)@ == old(readers)@,
        final(registry).owner() == old(registry).owner(),
        final(registry).next_value() == old(registry).next_value(),
        old(registry).wf() ==> final(registry).wf(),
        match presented(old(reader), old(readers), old(registry)) {
            None => {
                &&& outcome matches Some(CallOutcome::Panicked(payload))
                &&& payload.message() == Some(cross_thread_text())
                &&& final(slot)@ == old(slot)@
                &&& final(registry)@ == old(registry)@
            },
            Some(standing) => {
                &&& final(registry)@.dom() == old(registry)@.dom()
                &&& forall|id: ValueId|
                    id != old(readers)@[old(reader).addr()]@.inner.id() && old(
                        registry,
                    )@.contains_key(id) ==> final(registry)@[id] == old(registry)@[id]
                &&& presented(final(reader), final(readers), final(registry)) matches Some(moved)
                &&& moved.cursor() == standing.cursor()
                &&& match fetched_record(fetched) {
                    Err(texts) => {
                        &&& outcome matches Some(CallOutcome::Returned(result))
                        &&& result.kind == Kind::InternalError
                        &&& final(slot)@ == Some(
                            (result, Some(formatted(seq![store_error_text()] + texts, None))),
                        )
                        &&& moved.current() == standing.current()
                    },
                    Ok(record) => {
                        &&& final(slot)@ == old(slot)@
                        &&& moved.current() == record
                        &&& if delivered {
                            outcome matches Some(CallOutcome::Returned(result)) && result.kind
                                == Kind::Success
                        } else if record is Some {
                            outcome is None
                        } else {
                            outcome matches Some(CallOutcome::Returned(result)) && result.kind
                                == Kind::Done
                        }
                    },
                }
            },
        },
{
    let current = registry.thread_id();
    if !reader.is_accessible(readers, current) {
        return Some(
            CallOutcome::Panicked(
                PanicPayload::Literal("attempted to access resource from a different thread"),
            ),
        );
    }
    let ghost cell = readers@[reader.addr()];
    let db_reader = reader.deref_mut(readers, current);
    if !db_reader.inner.is_valid(registry) {
        proof {
            cell.lemma_same(final(readers)@[reader.addr()]);
        }
        return Some(
            CallOutcome::Panicked(
                PanicPayload::Literal("attempted to access resource from a different thread"),
            ),
        );
    }
    let moved = db_reader.inner.deref_mut(registry).move_next(fetched);
    proof {
        cell.lemma_same(final(readers)@[reader.addr()]);
    }
    match moved {
        Ok(more) => {
            if delivered {
                Some(CallOutcome::Returned(DbResult::ok()))
            } else if more {
                None
            } else {
                Some(CallOutcome::Returned(DbResult::done()))
            }
        },
        Err(e) => Some(CallOutcome::Returned(DbResult::from(&e.report(), slot))),
    }
}

/// Ends a read and gives up its handle. The handle must be live; the caller
/// must not present it again.
///
/// On the thread that began the read the reader is destroyed at once and the
/// call is a success. On any other thread nothing of the reader may be
/// touched: the call ends in a panic, and the reader is left in `garbage`
/// for its own thread to destroy.
pub fn db_read_end<I: Send>(
    reader: DbReaderHandle<I>,
    readers: &mut HandleTable<ThreadBound<DbReader<I>>>,
    registry: &mut Registry<Reader<I>>,
    garbage: &mut Garbage,
    slot: &mut LastResultSlot,
) -> (outcome: CallOutcome)
    requires
        old(readers)@.contains_key(reader.addr()),
    ensures
        final(readers)@ == old(readers)@.remove(reader.addr()),
        final(registry).owner() == old(registry).owner(),
        final(registry).next_value() == old(registry).next_value(),
        old(registry).wf() ==> final(registry).wf(),
        final(slot)@ == old(slot)@,
        ({
            let ticket = old(readers)@[reader.addr()]@.inner;
            if ticket.valid(old(registry)) {
                &&& outcome matches CallOutcome::Returned(result)
                &&& result.kind == Kind::Success
                &&& final(registry)@ == old(registry)@.remove(ticket.id())
                &&& forall|owner: ThreadId| final(garbage).pending(owner) == old(garbage).pending(owner)
            } else {
                &&& outcome matches CallOutcome::Panicked(payload)
                &&& payload.message() == Some(cross_thread_text())
                &&& final(registry)@ == old(registry)@
                &&& final(garbage).pending(ticket.owner()) == old(garbage).pending(
                    ticket.owner(),
                ).push(ticket.id())
                &&& forall|owner: ThreadId|
                    owner != ticket.owner() ==> final(garbage).pending(owner) == old(
                        garbage,
                    ).pending(owner)
            }
        }),
{
    let taken = |db_reader: DbReader<I>| -> (out: DbReader<I>)
        ensures
            out == db_reader,
        { db_reader };
    let db_reader = HandleExclusive::dealloc(reader, readers, taken);
    let mut ticket = db_reader.inner;
    if ticket.is_valid(registry) {
        let completed = ticket.deref_mut(registry).complete();
        ticket.drop(registry, garbage);
        CallOutcome::Returned(DbResult::from_result(completed, slot))
    } else {
        ticket.drop(registry, garbage);
        CallOutcome::Panicked(
            PanicPayload::Literal("attempted to access resource from a different thread"),
        )
    }
}

/// Hands out the handle of a write that the store began on the calling
/// thread `current`, or records why the store began none. The caller gets
/// either a live handle or none at all.
pub fn db_write_begin<W: Send + 'static>(
    begun: Result<W, Error>,
    current: ThreadId,
    writers: &mut HandleTable<ThreadBound<DbWriter<W>>>,
    writer: &mut DbWriterHandle<W>,
    slot: &mut LastResultSlot,
) -> (r: DbResult)
    requires
        old(writers).issued() < usize::MAX,
    ensures
        match begun {
            Ok(inner) => {
                &&& r.kind == Kind::Success
                &&& final(slot)@ == old(slot)@
                &&& final(writer).addr() != 0
                &&& !old(writers)@.contains_key(final(writer).addr())
                &&& final(writers)@.dom() == old(writers)@.dom().insert(final(writer).addr())
                &&& forall|addr: usize|
                    old(writers)@.contains_key(addr) ==> final(writers)@[addr] == old(writers)@[addr]
                &&& final(writer).accessible(final(writers), current)
                &&& final(writers)@[final(writer).addr()]@ == DbWriter { inner }
            },
            Err(e) => {
                &&& r.kind == Kind::InternalError
                &&& final(slot)@ == Some((r, Some(formatted(seq![store_error_text()] + e@, None))))
                &&& *final(writer) == *old(writer)
                &&& final(writers)@ == old(writers)@
            },
        },
{
    match begun {
        Ok(inner) => {
            let handle = HandleExclusive::allocate(DbWriter { inner }, current, writers);
            *writer = handle;
            DbResult::ok()
        },
        Err(e) => DbResult::from(&e.report(), slot),
    }
}

/// Makes ready to set a key to a value: gives the write that the handle
/// stands for, and the record to be written. Only the thread that began the
/// write may touch it; on any other the call ends in the panic given.
pub fn db_write_set<'a, 'b, W: Send>(
    writer: &mut DbWriterHandle<W>,
    writers: &'a mut HandleTable<ThreadBound<DbWriter<W>>>,
    current: ThreadId,
    key: &DbKey,
    value: &'b [u8],
) -> (r: Result<(&'a mut DbWriter<W>, Data<&'b [u8]>), PanicPayload>)
    requires
        old(writers)@.contains_key(old(writer).addr()),
    ensures
        *final(writer) == *old(writer),
        match r {
            Ok((inner, data)) => {
                &&& old(writer).accessible(old(writers), current)
                &&& data.key@ == key@
                &&& data.payload@ == value@
                &&& *inner == old(writers)@[old(writer).addr()]@
                &&& final(writers)@.dom() == old(writers)@.dom()
                &&& final(writers)@[old(writer).addr()]@ == *final(inner)
                &&& final(writers)@[old(writer).addr()].owner() == current
                &&& forall|addr: usize|
                    addr != old(writer).addr() && old(writers)@.contains_key(addr) ==> final(writers)@[addr] == old(writers)@[addr]
            },
            Err(payload) => {
                &&& !old(writer).accessible(old(writers), current)
                &&& payload.message() == Some(cross_thread_text())
                &&& final(writers)@ == old(writers)@
            },
        },
{
    if !writer.is_accessible(writers, current) {
        return Err(PanicPayload::Literal("attempted to access resource from a different thread"));
    }
    let inner = writer.deref_mut(writers, current);
    let data = Data { key: Key::from_bytes(key.0), payload: value };
    Ok((inner, data))
}

/// Gives up the handle of a write and lets `complete` flush what was
/// written, on whatever thread. The handle must be live; the caller must not
/// present it again.
pub fn db_write_end<W: Send, F: FnOnce(DbWriter<W>) -> Result<(), Error>>(
    writer: DbWriterHandle<W>,
    writers: &mut HandleTable<ThreadBound<DbWriter<W>>>,
    complete: F,
    slot: &mut LastResultSlot,
) -> (r: DbResult)
    requires
        old(writers)@.contains_key(writer.addr()),
        complete.requires((old(writers)@[writer.addr()]@,)),
    ensures
        final(writers)@ == old(writers)@.remove(writer.addr()),
        exists|completed: Result<(), Error>|
            complete.ensures((old(writers)@[writer.addr()]@,), completed) && match completed {
                Ok(_) => r.kind == Kind::Success && final(slot)@ == old(slot)@,
                Err(e) => r.kind == Kind::InternalError && final(slot)@ == Some(
                    (r, Some(formatted(seq![store_error_text()] + e@, None))),
                ),
            },
{
    let completed = HandleExclusive::dealloc(writer, writers, complete);
    DbResult::from_result(completed, slot)
}

/// Hands out the handle of a delete that the store began on the calling
/// thread `current`, or records why the store began none. The caller gets
/// either a live handle or none at all.
pub fn db_delete_begin<D: Send + 'static>(
    begun: Result<D, Error>,
    current: ThreadId,
    deleters: &mut HandleTable<ThreadBound<DbDeleter<D>>>,
    deleter: &mut DbDeleterHandle<D>,
    slot: &mut LastResultSlot,
) -> (r: DbResult)
    requires
        old(deleters).issued() < usize::MAX,
    ensures
        match begun {
            Ok(inner) => {
                &&& r.kind == Kind::Success
                &&& final(slot)@ == old(slot)@
                &&& final(deleter).addr() != 0
                &&& !old(deleters)@.contains_key(final(deleter).addr())
                &&& final(deleters)@.dom() == old(deleters)@.dom().insert(final(deleter).addr())
                &&& forall|addr: usize|
                    old(deleters)@.contains_key(addr) ==> final(deleters)@[addr] == old(
                        deleters,
                    )@[addr]
                &&& final(deleter).accessible(final(deleters), current)
                &&& final(deleters)@[final(deleter).addr()]@ == DbDeleter { inner }
            },
            Err(e) => {
                &&& r.kind == Kind::InternalError
                &&& final(slot)@ == Some((r, Some(formatted(seq![store_error_text()] + e@, None))))
                &&& *final(deleter) == *old(deleter)
                &&& final(deleters)@ == old(deleters)@
            },
        },
{
    match begun {
        Ok(inner) => {
            let handle = HandleExclusive::allocate(DbDeleter { inner }, current, deleters);
            *deleter = handle;
            DbResult::ok()
        },
        Err(e) => DbResult::from(&e.report(), slot),
    }
}

/// Makes ready to remove a key: gives the delete that the handle stands
/// for, and the key to be removed. Only the thread that began the delete may
/// touch it; on any other the call ends in the panic given.
pub fn db_delete_remove<'a, D: Send>(
    deleter: &mut DbDeleterHandle<D>,
    deleters: &'a mut HandleTable<ThreadBound<DbDeleter<D>>>,
    current: ThreadId,
    key: &DbKey,
) -> (r: Result<(&'a mut DbDeleter<D>, Key), PanicPayload>)
    requires
        old(deleters)@.contains_key(old(deleter).addr()),
    ensures
        *final(deleter) == *old(deleter),
        match r {
            Ok((inner, removed)) => {
                &&& old(deleter).accessible(old(deleters), current)
                &&& removed@ == key@
                &&& *inner == old(deleters)@[old(deleter).addr()]@
                &&& final(deleters)@.dom() == old(deleters)@.dom()
                &&& final(deleters)@[old(deleter).addr()]@ == *final(inner)
                &&& final(deleters)@[old(deleter).addr()].owner() == current
                &&& forall|addr: usize|
                    addr != old(deleter).addr() && old(deleters)@.contains_key(addr) ==> final(deleters)@[addr] == old(deleters)@[addr]
            },
            Err(payload) => {
                &&& !old(deleter).accessible(old(deleters), current)
                &&& payload.message() == Some(cross_thread_text())
                &&& final(deleters)@ == old(deleters)@
            },
        },
{
    if !deleter.is_accessible(deleters, current) {
        return Err(PanicPayload::Literal("attempted to access resource from a different thread"));
    }
    let inner = deleter.deref_mut(deleters, current);
    Ok((inner, Key::from_bytes(key.0)))
}

/// Gives up the handle of a delete and lets `complete` flush what was
/// removed, on whatever thread. The handle must be live; the caller must not
/// present it again.
pub fn db_delete_end<D: Send, F: FnOnce(DbDeleter<D>) -> Result<(), Error>>(
    deleter: DbDeleterHandle<D>,
    deleters: &mut HandleTable<ThreadBound<DbDeleter<D>>>,
    complete: F,
    slot: &mut LastResultSlot,
) -> (r: DbResult)
    requires
        old(deleters)@.contains_key(deleter.addr()),
        complete.requires((old(deleters)@[deleter.addr()]@,)),
    ensures
        final(deleters)@ == old(deleters)@.remove(deleter.addr()),
        exists|completed: Result<(), Error>|
            complete.ensures((old(deleters)@[deleter.addr()]@,), completed) && match completed {
                Ok(_) => r.kind == Kind::Success && final(slot)@ == old(slot)@,
                Err(e) => r.kind == Kind::InternalError && final(slot)@ == Some(
                    (r, Some(formatted(seq![store_error_text()] + e@, None))),
                ),
            },
{
    let completed = HandleExclusive::dealloc(deleter, deleters, complete);
    DbResult::from_result(completed, slot)
}

/// A query of the last result that found the buffer too small reports the
/// length that is needed, and a query with a buffer of that length succeeds.
/// A query only reads the record, so the second one finds what the first
/// did.
pub proof fn lemma_query_repeats(record: Recorded, capacity: nat)
    requires
        query_kind(record, capacity) == Kind::BufferTooSmall,
    ensures
        capacity < query_len(record),
        query_kind(record, query_len(record)) == Kind::Success,
        forall|larger: nat| larger >= query_len(record) ==> query_kind(record, larger) == Kind::Success,
{
}

/// What was written under a key is what a read gets back: the store holds
/// the sixteen bytes of the key and the bytes of the value, and a fetch of
/// them leads to the record of that key and that value.
pub proof fn lemma_round_trip(key: DbKey, value: Seq<u8>, stored_key: Vec<u8>, stored_value: Vec<u8>)
    requires
        stored_key@ == key@,
        stored_value@ == value,
    ensures
        fetched_record(Some(Ok((stored_key, stored_value)))) == Ok::<_, Seq<Seq<char>>>(
            Some((key@, value)),
        ),
{
}

} // verus!
