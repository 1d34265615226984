use remote_trait_object::table::ObjectTable;
use remote_trait_object::table::MAX_OBJECTS;
use remote_trait_object::PortError;

#[test]
fn a_new_table_is_empty() {
    let table: ObjectTable<&str> = ObjectTable::new(3);
    assert_eq!(table.len(), 0);
    assert!(table.is_empty());
    assert!(!table.is_full());
    assert_eq!(table.capacity(), 3);
    assert!(!table.contains(0));
    assert!(!table.contains(1));
    assert!(table.get(1).is_none());
}

#[test]
fn ids_start_at_one_and_are_dense() {
    let mut table = ObjectTable::new(8);
    assert_eq!(table.create("a"), Ok(1));
    assert_eq!(table.create("b"), Ok(2));
    assert_eq!(table.create("c"), Ok(3));
    assert_eq!(table.len(), 3);
    assert_eq!(table.get(1), Some(&"a"));
    assert_eq!(table.get(2), Some(&"b"));
    assert_eq!(table.get(3), Some(&"c"));
    assert_eq!(table.get(0), None);
    assert_eq!(table.get(4), None);
}

#[test]
fn a_vacated_id_is_given_out_again_most_recent_first() {
    let mut table = ObjectTable::new(8);
    for name in ["a", "b", "c", "d"] {
        table.create(name).unwrap();
    }
    assert_eq!(table.remove(2), Ok("b"));
    assert_eq!(table.remove(4), Ok("d"));
    assert_eq!(table.len(), 2);
    assert_eq!(table.create("e"), Ok(4));
    assert_eq!(table.create("f"), Ok(2));
    assert_eq!(table.create("g"), Ok(5));
    assert_eq!(table.get(2), Some(&"f"));
    assert_eq!(table.get(4), Some(&"e"));
    assert_eq!(table.len(), 5);
}

#[test]
fn a_full_table_takes_nothing() {
    let mut table = ObjectTable::new(2);
    assert_eq!(table.create(10), Ok(1));
    assert_eq!(table.create(20), Ok(2));
    assert!(table.is_full());
    assert_eq!(table.create(30), Err(PortError::TableFull));
    assert_eq!(table.len(), 2);
    assert_eq!(table.get(1), Some(&10));
    assert_eq!(table.get(2), Some(&20));
    assert_eq!(table.remove(1), Ok(10));
    assert!(!table.is_full());
    assert_eq!(table.create(30), Ok(1));
}

#[test]
fn a_table_for_nothing_is_always_full() {
    let mut table = ObjectTable::new(0);
    assert!(table.is_full());
    assert!(table.is_empty());
    assert_eq!(table.create(1u8), Err(PortError::TableFull));
}

#[test]
fn removes_are_one_shot() {
    let mut table = ObjectTable::new(4);
    table.create('x').unwrap();
    table.create('y').unwrap();
    assert_eq!(table.remove(1), Ok('x'));
    assert_eq!(table.remove(1), Err(PortError::UnknownObjectId));
    assert_eq!(table.len(), 1);
    assert_eq!(table.get(2), Some(&'y'));
    assert_eq!(table.remove(0), Err(PortError::UnknownObjectId));
    assert_eq!(table.remove(3), Err(PortError::UnknownObjectId));
    assert_eq!(table.remove(u32::MAX), Err(PortError::UnknownObjectId));
    assert_eq!(table.len(), 1);
}

#[test]
fn an_entry_stays_until_it_is_removed() {
    let mut table = ObjectTable::new(16);
    let kept = table.create(String::from("kept")).unwrap();
    for round in 0..5 {
        let a = table.create(format!("a{}", round)).unwrap();
        let b = table.create(format!("b{}", round)).unwrap();
        assert_ne!(a, kept);
        assert_ne!(b, kept);
        table.remove(a).unwrap();
        assert_eq!(table.get(kept).map(|s| s.as_str()), Some("kept"));
        assert!(table.remove(a).is_err());
        table.remove(b).unwrap();
        assert_eq!(table.get(kept).map(|s| s.as_str()), Some("kept"));
    }
    assert_eq!(table.len(), 1);
    assert_eq!(table.remove(kept), Ok(String::from("kept")));
    assert!(table.get(kept).is_none());
    assert_eq!(table.len(), 0);
}

#[test]
fn clearing_makes_the_table_fresh() {
    let mut table = ObjectTable::new(4);
    table.create(1).unwrap();
    table.create(2).unwrap();
    table.remove(1).unwrap();
    table.clear();
    assert!(table.is_empty());
    assert_eq!(table.capacity(), 4);
    assert!(!table.contains(2));
    assert_eq!(table.create(3), Ok(1));
    assert_eq!(table.create(4), Ok(2));
}

#[test]
fn the_largest_table_can_be_made() {
    let table: ObjectTable<u8> = ObjectTable::new(MAX_OBJECTS);
    assert_eq!(table.capacity(), 0xffff_fffe);
    assert!(!table.is_full());
}
