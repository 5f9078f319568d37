use errandgo::table::Table;

#[test]
fn table_keeps_one_value_per_key() {
    let mut t: Table<i128> = Table::new();
    assert_eq!(t.get(&"a".to_string()), None);
    t.set("a".to_string(), 1);
    t.set("b".to_string(), 2);
    t.set("a".to_string(), 3);
    assert_eq!(t.get(&"a".to_string()), Some(&3));
    assert_eq!(t.get(&"b".to_string()), Some(&2));
    assert!(t.contains_key(&"b".to_string()));
    assert!(t.remove(&"a".to_string()));
    assert!(!t.remove(&"a".to_string()));
    assert!(!t.contains_key(&"a".to_string()));
    assert_eq!(t.get(&"b".to_string()), Some(&2));
}
