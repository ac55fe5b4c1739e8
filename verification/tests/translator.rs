use monorail::translator::TwoWayTranslator;

#[test]
fn insert_translates_both_ways() {
    let mut t: TwoWayTranslator<&'static str, u32> = TwoWayTranslator::new();
    assert_eq!(t.forwards(&"a"), None);
    t.insert("a", 1);
    t.insert("b", 2);
    assert_eq!(t.forwards(&"a"), Some(&1));
    assert_eq!(t.backwards(&2), Some(&"b"));
    assert_eq!(t.backwards(&3), None);
}

#[test]
fn insert_replaces_older_pairs() {
    let mut t: TwoWayTranslator<&'static str, u32> = TwoWayTranslator::new();
    t.insert("a", 1);
    t.insert("a", 5);
    assert_eq!(t.forwards(&"a"), Some(&5));
    assert_eq!(t.backwards(&5), Some(&"a"));
    assert_eq!(t.backwards(&1), Some(&"a"));
    t.insert("c", 5);
    assert_eq!(t.backwards(&5), Some(&"c"));
    assert_eq!(t.forwards(&"a"), Some(&5));
}
