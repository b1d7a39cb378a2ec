use fml::port_table::{find_port_id, shutdown, FmlConfig, PortTable};
use fml::service::{get_key, set_key, KeyCell};

fn table() -> PortTable<u32> {
    PortTable::new(FmlConfig { server_threads: 2, call_slots: 8 })
}

#[test]
fn link_then_find() {
    let mut t = table();
    t.link(3, "Module1".to_owned(), 10, 300);
    t.link(4, "Module2".to_owned(), 11, 400);
    assert_eq!(find_port_id(&t, &"Module2".to_owned()), Ok(4));
    assert_eq!(find_port_id(&t, &"Module9".to_owned()), Err(()));
    assert_eq!(t.get(3), Some(&300));
}

#[test]
fn duplicate_link_is_refused() {
    let mut t = table();
    assert!(!t.is_linked(3));
    t.link(3, "Module1".to_owned(), 10, 300);
    // A second link needs an unlink first; callers test before linking.
    assert!(t.is_linked(3));
    assert_eq!(t.get(3), Some(&300));
    assert_eq!(t.map.len(), 1);
}

#[test]
fn unlink_returns_the_port() {
    let mut t = table();
    t.link(3, "Module1".to_owned(), 10, 300);
    t.link(4, "Module2".to_owned(), 11, 400);
    assert_eq!(t.unlink(3), Some(300));
    assert_eq!(t.unlink(3), None);
    assert!(!t.is_linked(3));
    assert!(t.is_linked(4));
    t.link(3, "Module1".to_owned(), 10, 301);
    assert_eq!(t.get(3), Some(&301));
}

#[test]
fn shutdown_sets_no_drop() {
    let mut t = table();
    t.link(3, "Module1".to_owned(), 10, 300);
    assert!(!t.no_drop);
    shutdown(&mut t);
    assert!(t.no_drop);
    assert!(t.is_linked(3));
}

#[test]
fn instance_key_is_set_once() {
    let mut cell = KeyCell::new();
    assert!(!cell.is_set());
    set_key(&mut cell, 777);
    assert!(cell.is_set());
    assert_eq!(get_key(&cell), 777);
}
