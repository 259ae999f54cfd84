use winit_loop::registry::WindowRegistry;
use winit_loop::window_set::WindowIdSet;
use winit_loop::{register_window, unregister_window};

#[test]
fn insertions_keep_one_entry_per_window() {
    let mut s = WindowIdSet::new();
    assert!(s.insert(7));
    assert!(s.insert(3));
    assert!(!s.insert(7));
    assert!(s.insert(11));
    assert!(!s.insert(3));
    assert_eq!(s.to_vec(), vec![3, 7, 11]);
    assert_eq!(s.len(), 3);
    assert!(s.contains(11));
    assert!(!s.contains(4));
}

#[test]
fn removal_and_take_all() {
    let mut s = WindowIdSet::new();
    for id in [5u64, 1, 9, 5, 1] {
        s.insert(id);
    }
    assert!(s.remove(5));
    assert!(!s.remove(5));
    assert_eq!(s.take_all(), vec![1, 9]);
    assert_eq!(s.len(), 0);
    s.insert(u64::MAX);
    s.insert(0);
    s.clear();
    assert_eq!(s.to_vec(), Vec::<u64>::new());
}

#[test]
fn registry_replaces_and_removes() {
    let mut r: WindowRegistry<&str> = WindowRegistry::new();
    assert!(r.is_empty());
    register_window(&mut r, 4, "first");
    register_window(&mut r, 2, "second");
    register_window(&mut r, 4, "third");
    assert_eq!(r.get(4), Some(&"third"));
    assert_eq!(r.ids(), vec![2, 4]);
    unregister_window(&mut r, 4);
    unregister_window(&mut r, 4);
    assert_eq!(r.get(4), None);
    assert_eq!(r.ids(), vec![2]);
    unregister_window(&mut r, 2);
    assert!(r.is_empty());
}
