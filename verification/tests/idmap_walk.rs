use vynkor::idmap::IdMap;

fn id(s: &str) -> String {
    s.to_string()
}

#[test]
fn idmap_keeps_one_value_per_identifier() {
    let mut m: IdMap<u32> = IdMap::new();
    assert_eq!(m.len(), 0);
    m.insert(id("a"), 1);
    m.insert(id("b"), 2);
    m.insert(id("a"), 3);
    assert_eq!(m.len(), 2);
    assert_eq!(m.get(&id("a")), Some(&3));
    assert_eq!(m.get(&id("b")), Some(&2));
    assert_eq!(m.get(&id("c")), None);
    assert!(m.contains_key(&id("b")));
    let mut seen: Vec<(String, u32)> = Vec::new();
    for i in 0..m.len() {
        let (k, v) = m.pair_at(i);
        seen.push((k.clone(), *v));
    }
    assert_eq!(seen, vec![(id("b"), 2), (id("a"), 3)]);
}

#[test]
fn idmap_remove_gives_the_value_back() {
    let mut m: IdMap<u32> = IdMap::new();
    m.insert(id("a"), 1);
    m.insert(id("b"), 2);
    m.insert(id("c"), 3);
    assert_eq!(m.remove(&id("b")), Some(2));
    assert_eq!(m.remove(&id("b")), None);
    assert_eq!(m.len(), 2);
    assert!(!m.contains_key(&id("b")));
    assert_eq!(m.get(&id("c")), Some(&3));
    assert_eq!(m.pair_at(0).0, "a");
    assert_eq!(m.pair_at(1).0, "c");
}
