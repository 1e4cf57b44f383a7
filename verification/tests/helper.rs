use ultralightui::helper::VecMap;

#[test]
fn insert_keeps_the_place_of_a_known_key() {
    let mut map: VecMap<u32, u64> = VecMap::new();
    assert_eq!(map.len(), 0);
    map.insert(5, 50);
    map.insert(3, 30);
    map.insert(5, 51);
    map.insert(9, 90);
    assert_eq!(map.len(), 3);
    assert_eq!(map.iter(), vec![(&5, &51), (&3, &30), (&9, &90)]);
    assert_eq!(map.get(&5), Some(&51));
    assert_eq!(map.get(&3), Some(&30));
    assert_eq!(map.get(&4), None);
}

#[test]
fn an_empty_map_holds_nothing() {
    let map: VecMap<u8, bool> = VecMap::default();
    assert_eq!(map.len(), 0);
    assert_eq!(map.get(&0), None);
    assert!(map.iter().is_empty());
}

#[test]
fn maps_are_equal_whatever_the_order() {
    let mut a: VecMap<u32, u64> = VecMap::new();
    let mut b: VecMap<u32, u64> = VecMap::new();
    assert!(a == b);
    a.insert(1, 10);
    a.insert(2, 20);
    b.insert(2, 20);
    assert!(a != b);
    b.insert(1, 10);
    assert!(a == b);
    assert!(a.clone() == a);
    b.insert(1, 11);
    assert!(a != b);
    b.insert(1, 10);
    b.insert(3, 30);
    assert!(a != b);
}

#[test]
fn entries_go_in_and_out_as_they_are() {
    let map = VecMap::from_entries(vec![(1u32, 10u64), (2, 20), (1, 11)]);
    assert_eq!(map.len(), 3);
    assert_eq!(map.get(&1), Some(&10));
    assert_eq!(map.into_entries(), vec![(1, 10), (2, 20), (1, 11)]);
}
