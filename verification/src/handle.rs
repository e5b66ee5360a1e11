//! Handles: what the caller holds in place of a resource.
//!
//! A handle is an address, and the resource it stands for lives in a
//! [`HandleTable`] under that address. A handle protects from data races, not
//! from use after it was given up: the caller must not present a handle again
//! once it has been deallocated.

use crate::is_null::IsNull;
use crate::thread_bound::{ThreadBound, ThreadId};
use std::marker::PhantomData;
use vstd::prelude::*;

verus! {

/// The resources that handles stand for, each under the address of its
/// handle. No address is zero, and none is handed out twice.
pub struct HandleTable<V> {
    slots: Vec<Option<V>>,
}

impl<V> View for HandleTable<V> {
    type V = Map<usize, V>;

    /// The live resources by address.
    closed spec fn view(&self) -> Map<usize, V> {
        live(self.slots@)
    }
}

/// The resources in the slots of a table by address: the slot behind the
/// address `addr` is the one at `addr - 1`.
spec fn live<V>(slots: Seq<Option<V>>) -> Map<usize, V> {
    Map::new(
        |addr: usize| 1 <= addr <= slots.len() && slots[addr - 1] is Some,
        |addr: usize| slots[addr - 1]->0,
    )
}

impl<V> HandleTable<V> {
    /// How many addresses have been handed out.
    pub closed spec fn issued(&self) -> nat {
        self.slots@.len()
    }

    /// The live addresses are among those handed out; zero is not.
    pub proof fn lemma_addresses(&self, addr: usize)
        requires
            self@.contains_key(addr),
        ensures
            1 <= addr <= self.issued(),
    {
    }

    /// The empty table.
    pub fn new() -> (table: Self)
        ensures
            table.issued() == 0,
            table@ == Map::<usize, V>::empty(),
    {
        let table = HandleTable { slots: Vec::new() };
        table
    }

    /// Whether another resource can be stored: the addresses are not used up.
    pub fn has_room(&self) -> (room: bool)
        ensures
            room == (self.issued() < usize::MAX),
    {
        self.slots.len() < usize::MAX
    }

    /// Whether a resource lives under `addr`.
    pub fn contains(&self, addr: usize) -> (live: bool)
        ensures
            live == self@.contains_key(addr),
    {
        addr >= 1 && addr <= self.slots.len() && self.slots[addr - 1].is_some()
    }

    /// Stores `value` under the next address and gives the address.
    pub fn insert(&mut self, value: V) -> (addr: usize)
        requires
            old(self).issued() < usize::MAX,
        ensures
            addr == old(self).issued() + 1,
            final(self).issued() == old(self).issued() + 1,
            !old(self)@.contains_key(addr),
            final(self)@ == old(self)@.insert(addr, value),
    {
        self.slots.push(Some(value));
        let addr = self.slots.len();
        addr
    }

    /// Takes the resource under `addr` out for good.
    pub fn remove(&mut self, addr: usize) -> (value: V)
        requires
            old(self)@.contains_key(addr),
        ensures
            value == old(self)@[addr],
            final(self).issued() == old(self).issued(),
            final(self)@ == old(self)@.remove(addr),
    {
        let value = self.slots[addr - 1].take();
        value.unwrap()
    }

    /// The resource under `addr`.
    pub fn get(&self, addr: usize) -> (value: &V)
        requires
            self@.contains_key(addr),
        ensures
            *value == self@[addr],
    {
        self.slots[addr - 1].as_ref().unwrap()
    }

    /// The resource under `addr`, to be changed.
    pub fn get_mut(&mut self, addr: usize) -> (value: &mut V)
        requires
            old(self)@.contains_key(addr),
        ensures
            *value == old(self)@[addr],
            final(self).issued() == old(self).issued(),
            final(self)@ == old(self)@.insert(addr, *final(value)),
    {
        match &mut self.slots[addr - 1] {
            Some(value) => value,
            None => unreached(),
        }
    }
}

/// A shared handle that can be accessed concurrently by multiple threads.
///
/// The interior value can be treated like `&T`.
pub struct HandleShared<T> {
    addr: usize,
    _m: PhantomData<T>,
}

impl<T> HandleShared<T> {
    /// The address that the caller holds.
    pub closed spec fn addr(&self) -> usize {
        self.addr
    }

    /// The handle that stands for nothing.
    pub fn null() -> (handle: Self)
        ensures
            handle.addr() == 0,
    {
        HandleShared { addr: 0, _m: PhantomData }
    }

    /// The handle that the caller presents as `addr`.
    pub fn from_addr(addr: usize) -> (handle: Self)
        ensures
            handle.addr() == addr,
    {
        HandleShared { addr, _m: PhantomData }
    }

    /// The address that the caller holds.
    pub fn as_ptr(&self) -> (addr: usize)
        ensures
            addr == self.addr(),
    {
        self.addr
    }
}

impl<T: Send + Sync + 'static> HandleShared<T> {
    /// Stores `value` and gives the handle for it.
    pub fn allocate(value: T, table: &mut HandleTable<T>) -> (handle: Self)
        requires
            old(table).issued() < usize::MAX,
        ensures
            handle.addr() != 0,
            !old(table)@.contains_key(handle.addr()),
            final(table)@ == old(table)@.insert(handle.addr(), value),
            final(table).issued() == old(table).issued() + 1,
    {
        let addr = table.insert(value);
        HandleShared { addr, _m: PhantomData }
    }
}

impl<T: Send + Sync> HandleShared<T> {
    /// Gives the handle up and hands the value to `f`. The handle must be
    /// live, and the caller must not present it again.
    pub fn dealloc<R, F: FnOnce(T) -> R>(handle: Self, table: &mut HandleTable<T>, f: F) -> (r: R)
        requires
            old(table)@.contains_key(handle.addr()),
            f.requires((old(table)@[handle.addr()],)),
        ensures
            f.ensures((old(table)@[handle.addr()],), r),
            final(table)@ == old(table)@.remove(handle.addr()),
            final(table).issued() == old(table).issued(),
    {
        let v = table.remove(handle.addr);
        f(v)
    }

    /// The value, which any thread may read.
    pub fn deref<'a>(&self, table: &'a HandleTable<T>) -> (value: &'a T)
        requires
            table@.contains_key(self.addr()),
        ensures
            *value == table@[self.addr()],
    {
        table.get(self.addr)
    }
}

/// A non-shared handle that cannot be accessed by multiple threads.
///
/// The interior value can be treated like `&mut T`. The handle is bound to
/// the thread that it was created on, so that there is no possibility of a
/// data race. It can be deallocated from a different thread than the one
/// that created it.
pub struct HandleExclusive<T> {
    addr: usize,
    _m: PhantomData<T>,
}

/// An exclusive handle is owned by the thread that made it.
pub type HandleOwned<T> = HandleExclusive<T>;

impl<T> HandleExclusive<T> {
    /// The address that the caller holds.
    pub closed spec fn addr(&self) -> usize {
        self.addr
    }

    /// The handle is live in `table` and the thread `current` made it: only
    /// then may the value be looked at or changed.
    pub open spec fn accessible(&self, table: &HandleTable<ThreadBound<T>>, current: ThreadId) -> bool {
        table@.contains_key(self.addr()) && table@[self.addr()].owner() == current
    }

    /// The handle that stands for nothing.
    pub fn null() -> (handle: Self)
        ensures
            handle.addr() == 0,
    {
        HandleExclusive { addr: 0, _m: PhantomData }
    }

    /// The handle that the caller presents as `addr`.
    pub fn from_addr(addr: usize) -> (handle: Self)
        ensures
            handle.addr() == addr,
    {
        HandleExclusive { addr, _m: PhantomData }
    }

    /// The address that the caller holds.
    pub fn as_ptr(&self) -> (addr: usize)
        ensures
            addr == self.addr(),
    {
        self.addr
    }

    /// Whether the thread `current` may look at the value or change it.
    pub fn is_accessible(&self, table: &HandleTable<ThreadBound<T>>, current: ThreadId) -> (allowed:
        bool)
        ensures
            allowed == self.accessible(table, current),
    {
        table.contains(self.addr) && table.get(self.addr).check(current)
    }
}

impl<T: Send + 'static> HandleExclusive<T> {
    /// Stores `value`, bound to the calling thread `current`, and gives the
    /// handle for it.
    pub fn allocate(value: T, current: ThreadId, table: &mut HandleTable<ThreadBound<T>>) -> (handle:
        Self)
        requires
            old(table).issued() < usize::MAX,
        ensures
            handle.addr() != 0,
            !old(table)@.contains_key(handle.addr()),
            final(table)@.dom() == old(table)@.dom().insert(handle.addr()),
            final(table)@[handle.addr()]@ == value,
            final(table)@[handle.addr()].owner() == current,
            forall|thread: ThreadId| handle.accessible(final(table), thread) <==> thread == current,
            forall|addr: usize|
                old(table)@.contains_key(addr) ==> final(table)@[addr] == old(table)@[addr],
            final(table).issued() == old(table).issued() + 1,
    {
        let v = ThreadBound::new(value, current);
        let addr = table.insert(v);
        HandleExclusive { addr, _m: PhantomData }
    }
}

impl<T: Send> HandleExclusive<T> {
    /// Gives the handle up and hands the value to `f`, on whatever thread:
    /// to take a value out for good is no access. The handle must be live,
    /// and the caller must not present it again.
    pub fn dealloc<R, F: FnOnce(T) -> R>(
        handle: Self,
        table: &mut HandleTable<ThreadBound<T>>,
        f: F,
    ) -> (r: R)
        requires
            old(table)@.contains_key(handle.addr()),
            f.requires((old(table)@[handle.addr()]@,)),
        ensures
            f.ensures((old(table)@[handle.addr()]@,), r),
            final(table)@ == old(table)@.remove(handle.addr()),
            final(table).issued() == old(table).issued(),
    {
        let v = table.remove(handle.addr);
        f(v.into_inner())
    }

    /// The value, for the thread that made the handle.
    pub fn deref<'a>(&self, table: &'a HandleTable<ThreadBound<T>>, current: ThreadId) -> (value:
        &'a T)
        requires
            self.accessible(table, current),
        ensures
            *value == table@[self.addr()]@,
    {
        table.get(self.addr).deref(current)
    }

    /// The value, to be changed by the thread that made the handle.
    pub fn deref_mut<'a>(
        &mut self,
        table: &'a mut HandleTable<ThreadBound<T>>,
        current: ThreadId,
    ) -> (value: &'a mut T)
        requires
            old(self).accessible(old(table), current),
        ensures
            *final(self) == *old(self),
            *value == old(table)@[old(self).addr()]@,
            final(table)@.dom() == old(table)@.dom(),
            final(table)@[old(self).addr()]@ == *final(value),
            final(table)@[old(self).addr()].owner() == current,
            forall|addr: usize|
                addr != old(self).addr() && old(table)@.contains_key(addr) ==> final(table)@[addr]
                    == old(table)@[addr],
            final(table).issued() == old(table).issued(),
    {
        table.get_mut(self.addr).deref_mut(current)
    }
}

/// An initialized parameter passed by shared reference, as the address that
/// the caller gave.
pub struct Ref<T> {
    addr: usize,
    _m: PhantomData<T>,
}

impl<T> Ref<T> {
    /// The address that the caller gave.
    pub closed spec fn addr(&self) -> usize {
        self.addr
    }

    /// The parameter that the caller gave as `addr`.
    pub fn from_addr(addr: usize) -> (param: Self)
        ensures
            param.addr() == addr,
    {
        Ref { addr, _m: PhantomData }
    }
}

/// An initialized parameter passed by exclusive reference, as the address
/// that the caller gave.
pub struct RefMut<T> {
    addr: usize,
    _m: PhantomData<T>,
}

impl<T> RefMut<T> {
    /// The address that the caller gave.
    pub closed spec fn addr(&self) -> usize {
        self.addr
    }

    /// The parameter that the caller gave as `addr`.
    pub fn from_addr(addr: usize) -> (param: Self)
        ensures
            param.addr() == addr,
    {
        RefMut { addr, _m: PhantomData }
    }
}

/// An uninitialized, assignable out parameter, as the address that the
/// caller gave.
pub struct Out<T> {
    addr: usize,
    _m: PhantomData<T>,
}

impl<T> Out<T> {
    /// The address that the caller gave.
    pub closed spec fn addr(&self) -> usize {
        self.addr
    }

    /// The parameter that the caller gave as `addr`.
    pub fn from_addr(addr: usize) -> (param: Self)
        ensures
            param.addr() == addr,
    {
        Out { addr, _m: PhantomData }
    }
}

impl<T> IsNull for HandleExclusive<T> {
    open spec fn null(&self) -> bool {
        self.addr() == 0
    }

    fn is_null(&self) -> (null: bool) {
        self.addr == 0
    }
}

impl<T: Sync> IsNull for HandleShared<T> {
    open spec fn null(&self) -> bool {
        self.addr() == 0
    }

    fn is_null(&self) -> (null: bool) {
        self.addr == 0
    }
}

impl<T> IsNull for Ref<T> {
    open spec fn null(&self) -> bool {
        self.addr() == 0
    }

    fn is_null(&self) -> (null: bool) {
        self.addr == 0
    }
}

impl<T: Sync> IsNull for RefMut<T> {
    open spec fn null(&self) -> bool {
        self.addr() == 0
    }

    fn is_null(&self) -> (null: bool) {
        self.addr == 0
    }
}

impl<T> IsNull for Out<T> {
    open spec fn null(&self) -> bool {
        self.addr() == 0
    }

    fn is_null(&self) -> (null: bool) {
        self.addr == 0
    }
}

/// An exclusive handle can be accessed on the thread that made it and on no
/// other; to give it up asks for no more than that it is live, on whatever
/// thread.
pub proof fn lemma_thread_affinity<T>(
    handle: HandleExclusive<T>,
    table: HandleTable<ThreadBound<T>>,
    maker: ThreadId,
    other: ThreadId,
)
    requires
        table@.contains_key(handle.addr()),
        table@[handle.addr()].owner() == maker,
        other != maker,
    ensures
        handle.accessible(&table, maker),
        !handle.accessible(&table, other),
        table@.remove(handle.addr()).dom() == table@.dom().remove(handle.addr()),
{
}

} // verus!
