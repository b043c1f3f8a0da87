use tego::ffi::handle::{Handle, HandleError};
use tego::ffi::object_map::{ObjectMap as HandleMap, ObjectMapError};
use tego::object_map::ObjectMap;

struct Widget;
struct Gadget;

type WidgetHandle = Handle<Widget, 3, 5>;
type GadgetHandle = Handle<Gadget, 3, 6>;

#[test]
fn handle_keeps_value_and_tag() {
    let h = WidgetHandle::new(42);
    assert_eq!(h.value(), 42);
    assert_eq!(h.tag(), 5);
    assert_eq!(h.raw(), (42 << 3) | 5);
}

#[test]
fn handle_round_trips_through_raw_word() {
    let h = WidgetHandle::new(7);
    let back = WidgetHandle::try_from_raw(h.raw()).unwrap();
    assert!(back.equals(&h));
    assert_eq!(back.value(), 7);
}

#[test]
fn handle_of_other_kind_is_refused() {
    let g = GadgetHandle::new(7);
    assert!(matches!(WidgetHandle::try_from_raw(g.raw()), Err(HandleError::WrongTag)));
    assert!(matches!(WidgetHandle::try_from_raw(0), Err(HandleError::WrongTag)));
}

#[test]
fn handles_of_distinct_values_differ() {
    let a = WidgetHandle::new(1);
    let b = WidgetHandle::new(2);
    assert!(!a.equals(&b));
    let c = a.clone();
    assert!(c.equals(&a));
}

#[test]
fn handle_map_hands_out_fresh_handles() {
    let mut m: HandleMap<String, Widget, 3, 5> = HandleMap::new();
    let a = m.insert("a".to_string());
    let b = m.insert("b".to_string());
    assert_eq!(a.value(), 1);
    assert_eq!(b.value(), 2);
    assert_eq!(a.tag(), 5);
    assert_eq!(m.get(&a).unwrap(), "a");
    assert_eq!(m.get(&b).unwrap(), "b");
}

#[test]
fn handle_map_remove_undoes_insert() {
    let mut m: HandleMap<u32, Widget, 3, 5> = HandleMap::new();
    let a = m.insert(10);
    assert_eq!(m.remove(&a).unwrap(), 10);
    match m.get(&a) {
        Err(ObjectMapError::NoObject { handle }) => assert_eq!(handle, a.raw()),
        Ok(_) => panic!("removed object still present"),
    }
    assert!(matches!(m.remove(&a), Err(ObjectMapError::NoObject { .. })));
    // handles are not reused after a removal
    let b = m.insert(11);
    assert_eq!(b.value(), 2);
}

#[test]
fn handle_map_get_mut_updates_in_place() {
    let mut m: HandleMap<u32, Widget, 3, 5> = HandleMap::new();
    let a = m.insert(1);
    *m.get_mut(&a).unwrap() = 99;
    assert_eq!(*m.get(&a).unwrap(), 99);
    let missing = WidgetHandle::new(500);
    assert!(matches!(m.get_mut(&missing), Err(ObjectMapError::NoObject { .. })));
}

#[test]
fn object_map_counts_keys_from_one() {
    let mut m: ObjectMap<&str> = ObjectMap::new();
    assert!(m.get(&1).is_none());
    let k1 = m.insert("x");
    let k2 = m.insert("y");
    assert_eq!(k1, 1);
    assert_eq!(k2, 2);
    assert_eq!(m.get(&1), Some(&"x"));
    assert_eq!(m.remove(&1), Some("x"));
    assert_eq!(m.remove(&1), None);
    assert_eq!(m.insert("z"), 3);
    *m.get_mut(&2).unwrap() = "w";
    assert_eq!(m.get(&2), Some(&"w"));
    assert!(m.get_mut(&7).is_none());
}
