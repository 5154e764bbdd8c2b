use action_rpg::handle::{LiveRef, NodeHandle, NodeTable};

#[test]
fn new_table_knows_no_handle() {
    let table = NodeTable::new();
    let handle = NodeHandle { index: 0, generation: 0 };
    assert!(!table.is_live(handle));
    assert_eq!(table.try_access(handle), None);
}

#[test]
fn registered_node_is_live() {
    let mut table = NodeTable::new();
    let handle = table.register();
    assert!(table.is_live(handle));
    assert_eq!(table.try_access(handle), Some(LiveRef { index: handle.index }));
}

#[test]
fn registered_nodes_get_different_handles() {
    let mut table = NodeTable::new();
    let first = table.register();
    let second = table.register();
    assert_ne!(first, second);
    assert!(table.is_live(first));
    assert!(table.is_live(second));
}

#[test]
fn released_node_is_gone() {
    let mut table = NodeTable::new();
    let handle = table.register();
    assert!(table.release(handle));
    assert!(!table.is_live(handle));
    assert_eq!(table.try_access(handle), None);
}

#[test]
fn release_of_a_gone_node_changes_nothing() {
    let mut table = NodeTable::new();
    let first = table.register();
    let second = table.register();
    assert!(table.release(first));
    assert!(!table.release(first));
    assert!(table.is_live(second));
    assert!(!table.release(NodeHandle { index: 17, generation: 0 }));
    assert!(table.is_live(second));
}

#[test]
fn a_handle_is_never_issued_again() {
    let mut table = NodeTable::new();
    let first = table.register();
    table.release(first);
    let second = table.register();
    assert_ne!(second, first);
    assert!(table.is_live(second));
    assert!(!table.is_live(first));
    assert_eq!(table.try_access(first), None);
}

#[test]
fn stale_handle_stays_stale_through_many_reuses() {
    let mut table = NodeTable::new();
    let first = table.register();
    table.release(first);
    for _ in 0..50 {
        let next = table.register();
        assert!(!table.is_live(first));
        assert!(table.release(next));
    }
    assert!(!table.is_live(first));
}

#[test]
fn handle_of_another_generation_is_not_live() {
    let mut table = NodeTable::new();
    let handle = table.register();
    let other = NodeHandle { index: handle.index, generation: handle.generation + 1 };
    assert!(!table.is_live(other));
    assert!(!table.release(other));
    assert!(table.is_live(handle));
}

#[test]
fn release_in_the_middle_leaves_the_others() {
    let mut table = NodeTable::new();
    let a = table.register();
    let b = table.register();
    let c = table.register();
    assert!(table.release(b));
    assert!(table.is_live(a));
    assert!(!table.is_live(b));
    assert!(table.is_live(c));
    let d = table.register();
    assert_ne!(d, b);
    assert!(table.is_live(d));
    assert!(!table.is_live(b));
}
