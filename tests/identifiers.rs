use fml::id_registry::{setup_identifiers, IdMap, IdRegistry, SetupError, SetupOutcome, INSTANCE_KEY_MAX};
use fml::ids::{HandleInstance, ServiceObjectId, UNDECIDED_INDEX, UNDECIDED_PORT, UNDECIDED_TRAIT};

fn compiled() -> IdRegistry {
    IdRegistry::new(
        vec!["TestService".to_owned(), "Hello".to_owned()],
        vec![
            ("TestService".to_owned(), "fn1".to_owned()),
            ("TestService".to_owned(), "fn2".to_owned()),
            ("Hello".to_owned(), "greet".to_owned()),
            ("TestService".to_owned(), "fn3".to_owned()),
        ],
    )
}

fn full_map() -> IdMap {
    IdMap {
        trait_map: vec![("Hello".to_owned(), 4), ("TestService".to_owned(), 9)],
        method_map: vec![
            ("TestService".to_owned(), "fn1".to_owned(), 7),
            ("TestService".to_owned(), "fn2".to_owned(), 8),
            ("TestService".to_owned(), "fn3".to_owned(), 9),
            ("Hello".to_owned(), "greet".to_owned(), 1),
        ],
    }
}

#[test]
fn new_registry_uses_declaration_order() {
    let reg = compiled();
    assert_eq!(reg.trait_id(0), UNDECIDED_TRAIT);
    assert_eq!(reg.method_id(0), 0);
    assert_eq!(reg.method_id(1), 1);
    assert_eq!(reg.method_id(2), 0);
    assert_eq!(reg.method_id(3), 2);
    assert!(!reg.some_done());
}

#[test]
fn setup_applies_the_map() {
    let mut reg = compiled();
    assert_eq!(setup_identifiers(&mut reg, 1, &full_map()), SetupOutcome::Applied);
    assert_eq!(reg.trait_id(0), 9);
    assert_eq!(reg.trait_id(1), 4);
    assert_eq!(reg.method_id(0), 7);
    assert_eq!(reg.method_id(1), 8);
    assert_eq!(reg.method_id(2), 1);
    assert_eq!(reg.method_id(3), 9);
    assert!(reg.some_done());
}

#[test]
fn setup_twice_for_one_key_fails() {
    let mut reg = compiled();
    assert_eq!(reg.check_setup(3, &full_map()), Ok(SetupOutcome::Applied));
    assert_eq!(setup_identifiers(&mut reg, 3, &full_map()), SetupOutcome::Applied);
    assert_eq!(reg.check_setup(3, &full_map()), Err(SetupError::AlreadySetUp));
}

#[test]
fn setup_for_two_keys_both_succeed() {
    let mut reg = compiled();
    assert_eq!(setup_identifiers(&mut reg, 1, &full_map()), SetupOutcome::Applied);
    assert_eq!(reg.check_setup(2, &full_map()), Ok(SetupOutcome::Skipped));
    assert_eq!(setup_identifiers(&mut reg, 2, &full_map()), SetupOutcome::Skipped);
    assert_eq!(reg.trait_id(0), 9);
    // A skipped setup marks its key too: a second call for it is misuse.
    assert_eq!(reg.check_setup(2, &full_map()), Err(SetupError::AlreadySetUp));
}

#[test]
fn empty_method_map_keeps_defaults() {
    let mut reg = compiled();
    let map = IdMap { trait_map: full_map().trait_map, method_map: Vec::new() };
    assert_eq!(setup_identifiers(&mut reg, 5, &map), SetupOutcome::Applied);
    assert_eq!(reg.trait_id(1), 4);
    assert_eq!(reg.method_id(0), 0);
    assert_eq!(reg.method_id(3), 2);
}

#[test]
fn setup_refuses_missing_trait() {
    let mut reg = compiled();
    let map = IdMap { trait_map: vec![("Hello".to_owned(), 4)], method_map: Vec::new() };
    assert_eq!(reg.check_setup(1, &map), Err(SetupError::MissingTrait));
    assert_eq!(reg.trait_id(1), UNDECIDED_TRAIT);
    assert!(!reg.some_done());
}

#[test]
fn setup_refuses_missing_method() {
    let mut reg = compiled();
    let mut map = full_map();
    map.method_map.pop();
    assert_eq!(reg.check_setup(1, &map), Err(SetupError::MissingMethod));
    assert_eq!(reg.method_id(0), 0);
}

#[test]
fn setup_refuses_duplicate_trait() {
    let mut reg = IdRegistry::new(vec!["A".to_owned(), "A".to_owned()], Vec::new());
    let map = IdMap { trait_map: vec![("A".to_owned(), 1)], method_map: Vec::new() };
    assert_eq!(reg.check_setup(1, &map), Err(SetupError::DuplicateTrait));
}

#[test]
fn setup_refuses_duplicate_method() {
    let mut reg = IdRegistry::new(
        vec!["A".to_owned()],
        vec![("A".to_owned(), "m".to_owned()), ("A".to_owned(), "m".to_owned())],
    );
    let map = IdMap { trait_map: vec![("A".to_owned(), 1)], method_map: Vec::new() };
    assert_eq!(reg.check_setup(1, &map), Err(SetupError::DuplicateMethod));
}

#[test]
fn setup_refuses_key_out_of_range() {
    let mut reg = compiled();
    assert_eq!(reg.check_setup(INSTANCE_KEY_MAX as u32, &full_map()), Err(SetupError::KeyOutOfRange));
}

#[test]
fn first_map_entry_wins() {
    let map = vec![("A".to_owned(), 1u16), ("A".to_owned(), 2u16)];
    assert_eq!(fml::id_registry::find_trait_id(&map, &"A".to_owned()), Some(1));
    assert_eq!(fml::id_registry::find_trait_id(&map, &"B".to_owned()), None);
}

#[test]
fn default_handle_is_empty() {
    let h = HandleInstance::default();
    assert_eq!(h.id, ServiceObjectId { trait_id: UNDECIDED_TRAIT, index: UNDECIDED_INDEX });
    assert_eq!(h.port_id_exporter, UNDECIDED_PORT);
    assert_eq!(h.port_id_importer, UNDECIDED_PORT);
    assert!(!h.decided());
}

#[test]
fn careful_clone_copies_fields() {
    let h = HandleInstance::new(ServiceObjectId { trait_id: 2, index: 5 }, 6, 7);
    let c = h.careful_clone();
    assert_eq!(c, h);
    assert_eq!(c.for_dispatcher_get_port_id(), 6);
    assert!(c.decided());
}
