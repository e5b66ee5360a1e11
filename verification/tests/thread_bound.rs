use native_db::thread_bound::{
    get_thread_id, next_thread_id, next_value_id, DeferredCleanup, Garbage, Registry, ThreadIds,
    ThreadSlot,
};
use std::cell::Cell;
use std::rc::Rc;

// A value that counts how often one of its kind was destroyed.
struct Observed {
    name: &'static str,
    destroyed: Rc<Cell<usize>>,
}

impl Drop for Observed {
    fn drop(&mut self) {
        self.destroyed.set(self.destroyed.get() + 1);
    }
}

fn observed(name: &'static str, destroyed: &Rc<Cell<usize>>) -> Observed {
    Observed { name, destroyed: destroyed.clone() }
}

#[test]
fn thread_ids_are_handed_out_in_turn() {
    let mut ids = ThreadIds::new();
    assert_eq!(next_thread_id(&mut ids), 0);
    assert_eq!(next_thread_id(&mut ids), 1);
    assert_eq!(next_thread_id(&mut ids), 2);
}

#[test]
fn a_thread_keeps_its_id() {
    let mut ids = ThreadIds::new();
    let mut first = ThreadSlot::new();
    let mut second = ThreadSlot::new();

    let a = get_thread_id(&mut first, &mut ids);
    let b = get_thread_id(&mut second, &mut ids);
    assert_eq!(a, 0);
    assert_eq!(b, 1);
    assert_ne!(a, b);

    // Asking again gives the same id and takes none from the counter.
    assert_eq!(get_thread_id(&mut first, &mut ids), a);
    assert_eq!(get_thread_id(&mut second, &mut ids), b);
    assert_eq!(next_thread_id(&mut ids), 2);
}

#[test]
fn value_ids_count_up() {
    let mut counter = 0usize;
    assert_eq!(next_value_id(&mut counter), 0);
    assert_eq!(next_value_id(&mut counter), 1);
    assert_eq!(counter, 2);
    let mut late = usize::MAX - 1;
    assert_eq!(next_value_id(&mut late), usize::MAX - 1);
    assert_eq!(late, usize::MAX);
}

#[test]
fn a_registered_value_is_valid_on_its_thread_only() {
    let destroyed = Rc::new(Cell::new(0));
    let mut owner: Registry<Observed> = Registry::new(3);
    let foreign: Registry<Observed> = Registry::new(4);
    assert_eq!(owner.thread_id(), 3);
    assert!(owner.has_room());

    let mut ticket = DeferredCleanup::new(observed("a", &destroyed), &mut owner, None);

    assert!(ticket.is_valid(&owner));
    assert!(!ticket.is_valid(&foreign));
    assert!(owner.contains(0));
    assert_eq!(owner.len(), 1);
    assert_eq!(ticket.deref(&owner).name, "a");
    ticket.deref_mut(&mut owner).name = "b";
    assert_eq!(ticket.with_value(&owner, |value| value.name), "b");
    assert_eq!(destroyed.get(), 0);
}

#[test]
fn a_foreign_registry_with_the_same_id_does_not_make_a_ticket_valid() {
    let destroyed = Rc::new(Cell::new(0));
    let mut owner: Registry<Observed> = Registry::new(1);
    let mut foreign: Registry<Observed> = Registry::new(2);
    let ticket = DeferredCleanup::new(observed("a", &destroyed), &mut owner, None);
    let other = DeferredCleanup::new(observed("b", &destroyed), &mut foreign, None);
    // Both values have the id 0, each in its own registry.
    assert!(!ticket.is_valid(&foreign));
    assert!(!other.is_valid(&owner));
}

#[test]
fn a_drop_on_the_own_thread_destroys_at_once() {
    let destroyed = Rc::new(Cell::new(0));
    let mut owner: Registry<Observed> = Registry::new(0);
    let mut garbage = Garbage::new();
    let ticket = DeferredCleanup::new(observed("a", &destroyed), &mut owner, Some(&mut garbage));

    ticket.drop(&mut owner, &mut garbage);

    assert_eq!(destroyed.get(), 1);
    assert!(!owner.contains(0));
    assert_eq!(owner.len(), 0);
    assert_eq!(garbage.pending_count(0), 0);
}

#[test]
fn a_drop_on_a_foreign_thread_is_deferred() {
    let destroyed = Rc::new(Cell::new(0));
    let mut owner: Registry<Observed> = Registry::new(10);
    let mut foreign: Registry<Observed> = Registry::new(11);
    let mut garbage = Garbage::new();

    let first = DeferredCleanup::new(observed("a", &destroyed), &mut owner, Some(&mut garbage));
    let kept = DeferredCleanup::new(observed("b", &destroyed), &mut owner, Some(&mut garbage));
    assert_eq!(owner.len(), 2);

    // Dropped on the foreign thread: nothing is destroyed, the id waits.
    first.drop(&mut foreign, &mut garbage);
    assert_eq!(destroyed.get(), 0);
    assert_eq!(owner.len(), 2);
    assert!(owner.contains(0));
    assert_eq!(garbage.pending_count(10), 1);
    assert_eq!(garbage.pending_count(11), 0);

    // The owner registers its next value: the waiting one is destroyed.
    let next = DeferredCleanup::new(observed("c", &destroyed), &mut owner, Some(&mut garbage));
    assert_eq!(destroyed.get(), 1);
    assert!(!owner.contains(0));
    assert!(kept.is_valid(&owner));
    assert!(next.is_valid(&owner));
    assert_eq!(owner.len(), 2);
    assert_eq!(garbage.pending_count(10), 0);
}

#[test]
fn without_the_table_of_garbage_nothing_is_destroyed() {
    let destroyed = Rc::new(Cell::new(0));
    let mut owner: Registry<Observed> = Registry::new(10);
    let mut foreign: Registry<Observed> = Registry::new(11);
    let mut garbage = Garbage::new();

    let first = DeferredCleanup::new(observed("a", &destroyed), &mut owner, None);
    first.drop(&mut foreign, &mut garbage);

    // The table could not be had this time: the value stays for now.
    let _second = DeferredCleanup::new(observed("b", &destroyed), &mut owner, None);
    assert_eq!(destroyed.get(), 0);
    assert_eq!(garbage.pending_count(10), 1);
    assert_eq!(owner.len(), 2);

    let _third = DeferredCleanup::new(observed("c", &destroyed), &mut owner, Some(&mut garbage));
    assert_eq!(destroyed.get(), 1);
    assert_eq!(garbage.pending_count(10), 0);
    assert_eq!(owner.len(), 2);
}

#[test]
fn garbage_is_kept_by_owner_and_in_order() {
    let mut garbage = Garbage::new();
    garbage.push(1, 5);
    garbage.push(2, 7);
    garbage.push(1, 3);
    assert_eq!(garbage.pending_count(1), 2);
    assert_eq!(garbage.pending_count(2), 1);
    assert_eq!(garbage.pending_count(3), 0);
    assert_eq!(garbage.take(1), vec![5, 3]);
    assert_eq!(garbage.take(1), Vec::<usize>::new());
    assert_eq!(garbage.pending_count(2), 1);
    assert_eq!(garbage.take(3), Vec::<usize>::new());
}

#[test]
fn a_value_queued_twice_is_destroyed_once() {
    let destroyed = Rc::new(Cell::new(0));
    let mut owner: Registry<Observed> = Registry::new(0);
    let mut garbage = Garbage::new();
    let _ticket = DeferredCleanup::new(observed("a", &destroyed), &mut owner, None);
    garbage.push(0, 0);
    garbage.push(0, 0);
    garbage.push(0, 99);
    let _next = DeferredCleanup::new(observed("b", &destroyed), &mut owner, Some(&mut garbage));
    assert_eq!(destroyed.get(), 1);
    assert_eq!(owner.len(), 1);
    assert!(owner.contains(1));
}
