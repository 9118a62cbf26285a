use a2x::ast::naming::{GenName, NameSlots};

#[test]
fn test_create() {
    let _n = GenName::default();
}

#[test]
fn test_push() {
    let mut slots = NameSlots::new();
    let mut n = GenName::default();
    let x = slots.new_slot(None);
    n.push_name(x);
}

#[test]
fn test_resolvable() {
    let mut slots = NameSlots::new();
    let mut n = GenName::default();
    // the empty path is resolvable
    assert!(n.is_resolvable(&slots));
    let x = slots.new_slot(None);
    n.push_name(x);
    // an empty slot on the path: not resolvable
    assert!(!n.is_resolvable(&slots));
    // settle the name
    assert!(slots.fill(x, "a-name".to_owned()));
    // now the path resolves
    assert!(n.is_resolvable(&slots));
}

#[test]
fn build_path_joins_the_names() {
    let mut slots = NameSlots::new();
    let outer = slots.new_slot(Some("outer".to_owned()));
    let inner = slots.new_slot(None);
    let mut n = GenName::default();
    n.push_name(outer);
    n.push_name(inner);
    assert_eq!(n.build_path(&slots, "."), None);
    assert!(slots.fill(inner, "inner".to_owned()));
    assert_eq!(n.build_path(&slots, "."), Some("outer.inner".to_owned()));
    assert_eq!(n.build_path(&slots, "/"), Some("outer/inner".to_owned()));
    assert_eq!(n.len(), 2);
    assert_eq!(n.policy_level(), 2);
    assert_eq!(n.last_elem(), Some(inner));
    assert!(!n.is_empty());
}

#[test]
fn a_slot_is_filled_once() {
    let mut slots = NameSlots::new();
    let x = slots.new_slot(None);
    assert!(slots.fill(x, "first".to_owned()));
    assert!(!slots.fill(x, "second".to_owned()));
    assert_eq!(slots.get(x), Some(&"first".to_owned()));
    // a slot that does not exist is not filled
    assert!(!slots.fill(x + 1, "third".to_owned()));
    assert_eq!(slots.get(x + 1), None);
}

#[test]
fn a_fill_is_seen_through_every_path() {
    let mut slots = NameSlots::new();
    let shared = slots.new_slot(None);
    let own_a = slots.new_slot(Some("a".to_owned()));
    let own_b = slots.new_slot(Some("b".to_owned()));
    let mut a = GenName::default();
    a.push_name(shared);
    a.push_name(own_a);
    let mut b = GenName::default();
    b.push_name(shared);
    b.push_name(own_b);
    assert!(!a.is_resolvable(&slots));
    assert!(!b.is_resolvable(&slots));
    assert!(slots.fill(shared, "policyset_0".to_owned()));
    assert_eq!(a.build_path(&slots, "."), Some("policyset_0.a".to_owned()));
    assert_eq!(b.build_path(&slots, "."), Some("policyset_0.b".to_owned()));
}

#[test]
fn push_name_at_index_moves_the_rest_inwards() {
    let mut slots = NameSlots::new();
    let a = slots.new_slot(Some("a".to_owned()));
    let b = slots.new_slot(Some("b".to_owned()));
    let orig = slots.new_slot(Some("orig".to_owned()));
    let mut n = GenName::default();
    n.push_name(a);
    n.push_name(b);
    n.push_name_at_index(orig, 1);
    assert_eq!(n.build_path(&slots, "."), Some("a.orig.b".to_owned()));
}
