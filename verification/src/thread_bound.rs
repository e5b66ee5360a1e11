//! Values that belong to one thread.
//!
//! A [`ThreadBound`] value may be read and written only on the thread that
//! made it. A [`DeferredCleanup`] value is moreover destroyed only on that
//! thread: it lives in the thread's [`Registry`], and a foreign thread that
//! drops it leaves its id in the process-wide [`Garbage`] table, from which
//! the owner takes it when it next registers a value.

use std::collections::hash_map::Entry;
use std::collections::HashMap;
use std::marker::PhantomData;
use vstd::prelude::*;

verus! {

broadcast use vstd::std_specs::hash::group_hash_axioms;

/// The id of a thread, unique in the process.
pub type ThreadId = usize;

/// The id of a registered value, unique among those of its thread.
pub type ValueId = usize;

/// The process-wide counter that thread ids come from. Ids are handed out in
/// turn and never taken back.
pub struct ThreadIds {
    next: usize,
}

impl View for ThreadIds {
    type V = usize;

    /// The id that the next new thread gets.
    closed spec fn view(&self) -> usize {
        self.next
    }
}

/// The id after `id`; the counter wraps round at the end of its range.
pub open spec fn following(id: usize) -> usize {
    if id == usize::MAX {
        0
    } else {
        (id + 1) as usize
    }
}

/// The id that is handed out `n` calls after `start` was.
pub open spec fn nth_following(start: usize, n: nat) -> usize
    decreases n,
{
    if n == 0 {
        start
    } else {
        following(nth_following(start, (n - 1) as nat))
    }
}

/// Ids are unique: two that are handed out by the same counter differ,
/// unless the counter has gone round its whole range in between.
pub proof fn lemma_ids_are_unique(start: usize, earlier: nat, later: nat)
    requires
        earlier < later,
        later - earlier <= usize::MAX,
    ensures
        nth_following(start, earlier) != nth_following(start, later),
{
    let range = usize::MAX + 1;
    let first = lemma_nth_following(start, earlier);
    let second = lemma_nth_following(start, later);
    if nth_following(start, earlier) == nth_following(start, later) {
        assert((second - first) * range == later - earlier) by (nonlinear_arith)
            requires
                nth_following(start, earlier) + first * range == start + earlier,
                nth_following(start, earlier) + second * range == start + later,
        ;
        assert(false) by (nonlinear_arith)
            requires
                (second - first) * range == later - earlier,
                0 < later - earlier < range,
        ;
    }
}

/// The id handed out `n` calls after `start` is `start + n`, less the rounds
/// that the counter has gone through its range.
proof fn lemma_nth_following(start: usize, n: nat) -> (rounds: nat)
    ensures
        nth_following(start, n) + rounds * (usize::MAX + 1) == start + n,
    decreases n,
{
    if n == 0 {
        0
    } else {
        let before = nth_following(start, (n - 1) as nat);
        let rounds = lemma_nth_following(start, (n - 1) as nat);
        if before == usize::MAX {
            assert(0 + (rounds + 1) * (usize::MAX + 1) == start + n) by (nonlinear_arith)
                requires
                    before == usize::MAX,
                    before + rounds * (usize::MAX + 1) == start + (n - 1),
            ;
            rounds + 1
        } else {
            rounds
        }
    }
}

impl ThreadIds {
    /// A counter that has handed out no id.
    pub fn new() -> (ids: Self)
        ensures
            ids@ == 0,
    {
        ThreadIds { next: 0 }
    }
}

/// What a thread knows of its own id: nothing until it first asks.
pub struct ThreadSlot {
    id: Option<ThreadId>,
}

impl View for ThreadSlot {
    type V = Option<ThreadId>;

    closed spec fn view(&self) -> Option<ThreadId> {
        self.id
    }
}

impl ThreadSlot {
    /// The slot of a thread that has not asked for its id yet.
    pub fn new() -> (slot: Self)
        ensures
            slot@ is None,
    {
        ThreadSlot { id: None }
    }
}

/// Hands out the next thread id.
pub fn next_thread_id(ids: &mut ThreadIds) -> (id: ThreadId)
    ensures
        id == old(ids)@,
        final(ids)@ == following(old(ids)@),
{
    let id = ids.next;
    ids.next = id.wrapping_add(1);
    id
}

/// The id of the calling thread, whose slot is `local`. The first call takes
/// the id from the counter; every later one gives the same id and leaves the
/// counter alone.
pub fn get_thread_id(local: &mut ThreadSlot, ids: &mut ThreadIds) -> (id: ThreadId)
    ensures
        final(local)@ == Some(id),
        match old(local)@ {
            Some(known) => id == known && final(ids)@ == old(ids)@,
            None => id == old(ids)@ && final(ids)@ == following(old(ids)@),
        },
{
    match local.id {
        Some(known) => known,
        None => {
            let id = next_thread_id(ids);
            local.id = Some(id);
            id
        },
    }
}

/// Hands out the next value id of a thread, whose counter is `counter`.
pub fn next_value_id(counter: &mut ValueId) -> (id: ValueId)
    requires
        *old(counter) < usize::MAX,
    ensures
        id == *old(counter),
        *final(counter) == id + 1,
{
    let next = *counter;
    *counter += 1;
    next
}

/// A value with the id of the thread that made it. Only that thread may look
/// at the value or change it; any thread may take it out for good.
pub struct ThreadBound<T> {
    thread_id: ThreadId,
    inner: T,
}

impl<T> View for ThreadBound<T> {
    type V = T;

    /// The value inside.
    closed spec fn view(&self) -> T {
        self.inner
    }
}

impl<T> ThreadBound<T> {
    /// The thread that made the cell.
    pub closed spec fn owner(&self) -> ThreadId {
        self.thread_id
    }

    /// A cell is no more than its value and the thread that made it.
    pub proof fn lemma_same(self, other: Self)
        requires
            self@ == other@,
            self.owner() == other.owner(),
        ensures
            self == other,
    {
    }

    /// Binds `inner` to the calling thread, whose id is `current`.
    pub fn new(inner: T, current: ThreadId) -> (bound: Self)
        ensures
            bound@ == inner,
            bound.owner() == current,
    {
        ThreadBound { thread_id: current, inner }
    }

    /// Whether the thread `current` may access the value: only the one that
    /// made the cell may. Every accessor asks for this.
    pub fn check(&self, current: ThreadId) -> (allowed: bool)
        ensures
            allowed == (current == self.owner()),
    {
        self.thread_id == current
    }

    /// The value, for the thread that made the cell.
    pub fn deref(&self, current: ThreadId) -> (inner: &T)
        requires
            current == self.owner(),
        ensures
            *inner == self@,
    {
        &self.inner
    }

    /// The value, to be changed by the thread that made the cell.
    pub fn deref_mut(&mut self, current: ThreadId) -> (inner: &mut T)
        requires
            current == old(self).owner(),
        ensures
            *inner == old(self)@,
            final(self)@ == *final(inner),
            final(self).owner() == old(self).owner(),
    {
        &mut self.inner
    }
}

impl<T: Send> ThreadBound<T> {
    /// Takes the value out, on whatever thread: a value that may be sent to
    /// another thread may also end there.
    pub fn into_inner(self) -> (inner: T)
        ensures
            inner == self@,
    {
        self.inner
    }
}

/// The values that one thread has registered and not yet destroyed, each
/// under its id. Only its own thread ever holds a thread's registry.
pub struct Registry<T> {
    owner: ThreadId,
    next_value: ValueId,
    values: HashMap<ValueId, T>,
}

impl<T> View for Registry<T> {
    type V = Map<ValueId, T>;

    /// The live values by id.
    closed spec fn view(&self) -> Map<ValueId, T> {
        self.values@
    }
}

/// What is left of the live values once those queued for destruction are
/// destroyed.
pub open spec fn swept<T>(live: Map<ValueId, T>, pending: Seq<ValueId>) -> Map<ValueId, T> {
    live.remove_keys(pending.to_set())
}

impl<T> Registry<T> {
    /// The thread whose registry this is.
    pub closed spec fn owner(&self) -> ThreadId {
        self.owner
    }

    /// The id that the next registered value gets.
    pub closed spec fn next_value(&self) -> ValueId {
        self.next_value
    }

    /// Every live value has an id that was handed out.
    pub open spec fn wf(&self) -> bool {
        forall|id: ValueId| self@.contains_key(id) ==> id < self.next_value()
    }

    /// The empty registry of the thread `owner`.
    pub fn new(owner: ThreadId) -> (registry: Self)
        ensures
            registry.wf(),
            registry.owner() == owner,
            registry.next_value() == 0,
            registry@ == Map::<ValueId, T>::empty(),
    {
        Registry { owner, next_value: 0, values: HashMap::new() }
    }

    /// The thread whose registry this is.
    pub fn thread_id(&self) -> (owner: ThreadId)
        ensures
            owner == self.owner(),
    {
        self.owner
    }

    /// Whether another value can be registered: the ids are not used up.
    pub fn has_room(&self) -> (room: bool)
        ensures
            room == (self.next_value() < usize::MAX),
    {
        self.next_value < usize::MAX
    }

    /// Whether a value is live under `id`.
    pub fn contains(&self, id: ValueId) -> (live: bool)
        ensures
            live == self@.contains_key(id),
    {
        self.values.contains_key(&id)
    }

    /// The number of live values.
    pub fn len(&self) -> (count: usize)
        ensures
            count == self@.len(),
    {
        self.values.len()
    }
}

/// The ids of values that were dropped on a foreign thread and wait for
/// their owner to destroy them, by owner. The process has one such table,
/// behind a lock.
pub struct Garbage {
    queues: HashMap<ThreadId, Vec<ValueId>>,
}

impl Garbage {
    /// The ids that wait for the thread `owner`, in the order they were
    /// dropped.
    pub closed spec fn pending(&self, owner: ThreadId) -> Seq<ValueId> {
        if self.queues@.contains_key(owner) {
            self.queues@[owner]@
        } else {
            Seq::empty()
        }
    }

    /// The table with nothing waiting.
    pub fn new() -> (garbage: Self)
        ensures
            forall|owner: ThreadId| garbage.pending(owner) == Seq::<ValueId>::empty(),
    {
        Garbage { queues: HashMap::new() }
    }

    /// How many ids wait for the thread `owner`.
    pub fn pending_count(&self, owner: ThreadId) -> (count: usize)
        ensures
            count == self.pending(owner).len(),
    {
        match self.queues.get(&owner) {
            Some(queue) => queue.len(),
            None => 0,
        }
    }

    /// Leaves `id` for the thread `owner` to destroy.
    pub fn push(&mut self, owner: ThreadId, id: ValueId)
        ensures
            final(self).pending(owner) == old(self).pending(owner).push(id),
            forall|other: ThreadId|
                other != owner ==> final(self).pending(other) == old(self).pending(other),
    {
        let queue = self.queues.entry(owner).or_insert(Vec::new());
        queue.push(id);
    }

    /// Takes all that waits for the thread `owner`.
    pub fn take(&mut self, owner: ThreadId) -> (pending: Vec<ValueId>)
        ensures
            pending@ == old(self).pending(owner),
            final(self).pending(owner) == Seq::<ValueId>::empty(),
            forall|other: ThreadId|
                other != owner ==> final(self).pending(other) == old(self).pending(other),
    {
        match self.queues.remove(&owner) {
            Some(queue) => queue,
            None => Vec::new(),
        }
    }
}

/// A thread-bound value that can be dropped from any thread.
///
/// The value itself lives in the registry of the thread that made it; this is
/// the ticket for it. Dropped on its own thread the value is destroyed at
/// once; dropped elsewhere it is queued and destroyed by its owner later.
pub struct DeferredCleanup<T> {
    thread_id: ThreadId,
    value_id: ValueId,
    _m: PhantomData<T>,
}

impl<T> DeferredCleanup<T> {
    /// The thread that registered the value.
    pub closed spec fn owner(&self) -> ThreadId {
        self.thread_id
    }

    /// The id of the value in its owner's registry.
    pub closed spec fn id(&self) -> ValueId {
        self.value_id
    }

    /// The ticket is valid on the thread whose registry is `registry`: the
    /// thread is the owner and the value is still there.
    pub open spec fn valid(&self, registry: &Registry<T>) -> bool {
        self.owner() == registry.owner() && registry@.contains_key(self.id())
    }

    /// Registers `value` on the calling thread, whose registry is `registry`.
    /// First the values that other threads left for this thread in `garbage`
    /// are destroyed, then the value is stored under a fresh id. Where the
    /// table of garbage cannot be had at the moment, nothing is destroyed this
    /// time.
    pub fn new(value: T, registry: &mut Registry<T>, garbage: Option<&mut Garbage>) -> (ticket: Self)
        requires
            old(registry).wf(),
            old(registry).next_value() < usize::MAX,
        ensures
            ticket.owner() == old(registry).owner(),
            ticket.id() == old(registry).next_value(),
            !old(registry)@.contains_key(ticket.id()),
            final(registry).wf(),
            final(registry).owner() == old(registry).owner(),
            final(registry).next_value() == old(registry).next_value() + 1,
            ticket.valid(final(registry)),
            match garbage {
                Some(table) => {
                    &&& final(registry)@ == swept(old(registry)@, table.pending(ticket.owner())).insert(
                        ticket.id(),
                        value,
                    )
                    &&& forall|id: ValueId|
                        table.pending(ticket.owner()).contains(id) ==> id == ticket.id()
                            || !final(registry)@.contains_key(id)
                    &&& final(table).pending(ticket.owner()) == Seq::<ValueId>::empty()
                    &&& forall|other: ThreadId|
                        other != ticket.owner() ==> final(table).pending(other) == table.pending(
                            other,
                        )
                },
                None => final(registry)@ == old(registry)@.insert(ticket.id(), value),
            },
    {
        let thread_id = registry.owner;
        let value_id = next_value_id(&mut registry.next_value);

        // Look for garbage that needs cleaning up.
        let pending = match garbage {
            Some(table) => table.take(thread_id),
            None => Vec::new(),
        };

        let n = pending.len();
        let mut i: usize = 0;
        while i < n
            invariant
                n == pending@.len(),
                i <= n,
                registry.owner == old(registry).owner,
                registry.next_value == value_id + 1,
                registry.values@ == swept(old(registry)@, pending@.subrange(0, i as int)),
            decreases n - i,
        {
            let id = pending[i];
            // Destroyed here, on the thread that owns it.
            let _ = registry.values.remove(&id);
            proof {
                let done = pending@.subrange(0, i as int);
                let next = pending@.subrange(0, i + 1);
                assert forall|k: ValueId| next.to_set().contains(k) <==> (done.to_set().contains(k)
                    || k == id) by {
                    if k == id {
                        assert(next[i as int] == k);
                    }
                }
            }
            i += 1;
        }
        assert(pending@.subrange(0, n as int) =~= pending@);

        registry.values.insert(value_id, value);
        DeferredCleanup { thread_id, value_id, _m: PhantomData }
    }

    /// Whether the ticket can be used on the calling thread, whose registry is
    /// `registry`: the thread must be its owner and the value still there.
    pub fn is_valid(&self, registry: &Registry<T>) -> (valid: bool)
        ensures
            valid == self.valid(registry),
    {
        self.thread_id == registry.owner && registry.values.contains_key(&self.value_id)
    }

    /// Hands the value to `f`. Only the owner may do so, and only while the
    /// value is there.
    pub fn with_value<R, F: FnOnce(&T) -> R>(&self, registry: &Registry<T>, f: F) -> (r: R)
        requires
            self.valid(registry),
            f.requires((&registry@[self.id()],)),
        ensures
            f.ensures((&registry@[self.id()],), r),
    {
        f(self.deref(registry))
    }

    /// The value. Only the owner may ask, and only while the value is there.
    pub fn deref<'a>(&self, registry: &'a Registry<T>) -> (value: &'a T)
        requires
            self.valid(registry),
        ensures
            *value == registry@[self.id()],
    {
        match registry.values.get(&self.value_id) {
            Some(value) => value,
            None => unreached(),
        }
    }

    /// The value, to be changed. Only the owner may ask, and only while the
    /// value is there.
    pub fn deref_mut<'a>(&mut self, registry: &'a mut Registry<T>) -> (value: &'a mut T)
        requires
            old(self).valid(old(registry)),
        ensures
            *final(self) == *old(self),
            *value == old(registry)@[old(self).id()],
            final(registry)@ == old(registry)@.insert(old(self).id(), *final(value)),
            final(registry).owner() == old(registry).owner(),
            final(registry).next_value() == old(registry).next_value(),
            old(registry).wf() ==> final(registry).wf(),
    {
        match registry.values.entry(self.value_id) {
            Entry::Occupied(entry) => entry.into_mut(),
            Entry::Vacant(_) => unreached(),
        }
    }

    /// Gives the ticket up on the calling thread, whose registry is
    /// `registry`. On its own thread the value is destroyed now. On any other
    /// thread nothing is destroyed: the id is left in `garbage` for the owner.
    pub fn drop(self, registry: &mut Registry<T>, garbage: &mut Garbage)
        ensures
            final(registry).owner() == old(registry).owner(),
            final(registry).next_value() == old(registry).next_value(),
            old(registry).wf() ==> final(registry).wf(),
            self.valid(old(registry)) ==> {
                &&& final(registry)@ == old(registry)@.remove(self.id())
                &&& forall|owner: ThreadId| final(garbage).pending(owner) == old(garbage).pending(owner)
            },
            !self.valid(old(registry)) ==> {
                &&& final(registry)@ == old(registry)@
                &&& final(garbage).pending(self.owner()) == old(garbage).pending(self.owner()).push(
                    self.id(),
                )
                &&& forall|owner: ThreadId|
                    owner != self.owner() ==> final(garbage).pending(owner) == old(
                        garbage,
                    ).pending(owner)
            },
    {
        let mut ticket = self;
        if ticket.is_valid(registry) {
            let _ = ticket.into_inner_unchecked(registry);
        } else {
            garbage.push(ticket.thread_id, ticket.value_id);
        }
    }

    /// Takes the value out of the registry of its own thread.
    fn into_inner_unchecked(&mut self, registry: &mut Registry<T>) -> (value: T)
        requires
            old(self).valid(old(registry)),
        ensures
            *final(self) == *old(self),
            value == old(registry)@[old(self).id()],
            final(registry)@ == old(registry)@.remove(old(self).id()),
            final(registry).owner() == old(registry).owner(),
            final(registry).next_value() == old(registry).next_value(),
    {
        match registry.values.remove(&self.value_id) {
            Some(value) => value,
            None => unreached(),
        }
    }
}

/// A value that was dropped on a foreign thread is not destroyed then, and
/// is destroyed when its owner next registers a value.
///
/// `live` are the values of the owner and `waiting` the ids left for it
/// before the drop; `id` is the value dropped, `fresh` the id of the value
/// registered next, which no live value has.
pub proof fn lemma_deferred_cleanup<T>(
    live: Map<ValueId, T>,
    waiting: Seq<ValueId>,
    id: ValueId,
    fresh: ValueId,
    value: T,
)
    requires
        live.contains_key(id),
        forall|other: ValueId| live.contains_key(other) ==> other < fresh,
    ensures
        ({
            // The foreign thread cannot reach the owner's registry: the drop
            // leaves `live` as it is and queues the id.
            let queued = waiting.push(id);
            let registered = swept(live, queued).insert(fresh, value);
            &&& queued.len() == waiting.len() + 1
            &&& !registered.contains_key(id)
            &&& registered.contains_key(fresh)
            &&& forall|other: ValueId|
                live.contains_key(other) && !queued.contains(other) ==> registered.contains_key(
                    other,
                )
        }),
{
    let queued = waiting.push(id);
    assert(queued[waiting.len() as int] == id);
}

} // verus!
