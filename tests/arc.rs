use encrypted_ref::{CellStore, EncryptedArc, EncryptedWeak};
use std::cell::Cell;
use std::rc::Rc;

#[test]
fn encrypted_arc() {
    let string = String::from("hello world!");
    let mut store = CellStore::new();
    let string_arc = EncryptedArc::new(&mut store, string.clone());
    println!("Normal string ref: {}", &string);
    println!("Encrypted string ref: {}", string_arc.get(&store));
    assert_eq!(string, *string_arc.get(&store));
    string_arc.release(&mut store);
}

#[test]
fn encrypted_weak() {
    let string = String::from("hello world!");
    let mut store = CellStore::new();
    let string_arc = EncryptedArc::new(&mut store, string.clone());
    println!("Normal string ref: {}", &string);
    let weak = string_arc.downgrade(&mut store);
    {
        let weak = weak.clone(&mut store);
        let up = weak.upgrade(&mut store);
        assert_eq!(up.as_ref().map(|a| a.get(&store)), Some(&string));
        if let Some(a) = up {
            a.release(&mut store);
        }
        weak.release(&mut store);
    }
    string_arc.release(&mut store);
    let up = weak.upgrade(&mut store);
    assert_eq!(up.as_ref().map(|a| a.get(&store)), None);
    weak.release(&mut store);
}

#[test]
fn read_after_new_gives_value() {
    let mut store = CellStore::new();
    let a = EncryptedArc::new(&mut store, 42u64);
    let b = EncryptedArc::new(&mut store, 7u64);
    assert_eq!(*a.get(&store), 42);
    assert_eq!(*b.get(&store), 7);
    assert_eq!(store.len(), 2);
    a.release(&mut store);
    b.release(&mut store);
}

#[test]
fn counts_follow_clone_downgrade_release() {
    let mut store = CellStore::new();
    let a = EncryptedArc::new(&mut store, 1u8);
    assert_eq!(a.strong_count(&store), 1);
    assert_eq!(a.weak_count(&store), 1);
    let b = a.clone(&mut store);
    assert_eq!(a.strong_count(&store), 2);
    let w = a.downgrade(&mut store);
    assert_eq!(a.weak_count(&store), 2);
    b.release(&mut store);
    assert_eq!(a.strong_count(&store), 1);
    w.release(&mut store);
    assert_eq!(a.weak_count(&store), 1);
    a.release(&mut store);
    assert!(!store.is_allocated(0));
}

struct Probe(Rc<Cell<u32>>);

impl Drop for Probe {
    fn drop(&mut self) {
        self.0.set(self.0.get() + 1);
    }
}

#[test]
fn payload_destroyed_once_after_last_release() {
    let drops = Rc::new(Cell::new(0u32));
    let mut store = CellStore::new();
    let first = EncryptedArc::new(&mut store, Probe(drops.clone()));
    let mut handles = vec![first];
    for _ in 0..5 {
        let h = handles[0].clone(&mut store);
        handles.push(h);
    }
    // release in a mixed order: middle ones first, then the ends
    let order = [3usize, 1, 3, 0, 1];
    for i in order {
        let h = handles.remove(i);
        h.release(&mut store);
        assert_eq!(drops.get(), 0);
    }
    assert_eq!(handles.len(), 1);
    handles.pop().unwrap().release(&mut store);
    assert_eq!(drops.get(), 1);
    assert!(!store.is_allocated(0));
}

#[test]
fn upgrade_while_alive_and_after_last_release() {
    let mut store = CellStore::new();
    let a = EncryptedArc::new(&mut store, String::from("payload"));
    let w = a.downgrade(&mut store);
    let up = w.upgrade(&mut store).expect("a strong handle is alive");
    assert_eq!(up.get(&store), "payload");
    assert_eq!(a.strong_count(&store), 2);
    up.release(&mut store);
    a.release(&mut store);
    assert!(w.upgrade(&mut store).is_none());
    assert!(store.is_allocated(0));
    w.release(&mut store);
    assert!(!store.is_allocated(0));
}

#[test]
fn storage_freed_when_weak_side_releases_last() {
    let drops = Rc::new(Cell::new(0u32));
    let mut store = CellStore::new();
    let a = EncryptedArc::new(&mut store, Probe(drops.clone()));
    let w = a.downgrade(&mut store);
    a.release(&mut store);
    assert_eq!(drops.get(), 1);
    assert!(store.is_allocated(0));
    w.release(&mut store);
    assert!(!store.is_allocated(0));
    assert_eq!(drops.get(), 1);
}

#[test]
fn storage_freed_when_strong_side_releases_last() {
    let drops = Rc::new(Cell::new(0u32));
    let mut store = CellStore::new();
    let a = EncryptedArc::new(&mut store, Probe(drops.clone()));
    let w = a.downgrade(&mut store);
    w.release(&mut store);
    assert!(store.is_allocated(0));
    assert_eq!(drops.get(), 0);
    a.release(&mut store);
    assert!(!store.is_allocated(0));
    assert_eq!(drops.get(), 1);
}

#[test]
fn every_new_handle_value_has_new_bytes() {
    let mut store = CellStore::new();
    let a = EncryptedArc::new(&mut store, 5i32);
    let b = a.clone(&mut store);
    assert_ne!(a.representation(), b.representation());
    assert_eq!(a.representation().len(), 48);
    let w = a.downgrade(&mut store);
    let w2 = w.clone(&mut store);
    assert_ne!(w.representation(), w2.representation());
    assert_ne!(w.representation(), a.representation());
    let up = w.upgrade(&mut store).unwrap();
    assert_ne!(up.representation(), a.representation());
    assert_ne!(up.representation(), b.representation());
    for h in [a, b, up] {
        h.release(&mut store);
    }
    w.release(&mut store);
    w2.release(&mut store);
    assert!(!store.is_allocated(0));
}

#[test]
fn hello_world_sequence_leaves_nothing_allocated() {
    let mut store = CellStore::new();
    let original = EncryptedArc::new(&mut store, String::from("hello world!"));
    let copy = original.clone(&mut store);
    let weak = original.downgrade(&mut store);
    original.release(&mut store);
    copy.release(&mut store);
    assert!(weak.upgrade(&mut store).is_none());
    weak.release(&mut store);
    assert_eq!(store.len(), 1);
    assert!(!store.is_allocated(0));
}

#[test]
fn dangling_weak_touches_nothing() {
    let mut store: CellStore<u32> = CellStore::new();
    let a = EncryptedArc::new(&mut store, 9u32);
    let w = EncryptedWeak::new();
    let w2 = w.clone(&mut store);
    assert!(w.upgrade(&mut store).is_none());
    assert!(w2.upgrade(&mut store).is_none());
    assert_eq!(a.weak_count(&store), 1);
    assert_eq!(a.strong_count(&store), 1);
    w.release(&mut store);
    w2.release(&mut store);
    assert_eq!(a.weak_count(&store), 1);
    a.release(&mut store);
}

#[test]
fn replace_is_seen_by_every_handle() {
    let mut store = CellStore::new();
    let a = EncryptedArc::new(&mut store, String::from("hello world!"));
    let b = a.clone(&mut store);
    let old = b.replace(&mut store, String::from("changed"));
    assert_eq!(old, "hello world!");
    assert_eq!(a.get(&store), "changed");
    a.release(&mut store);
    b.release(&mut store);
}
