use bittower::keyed::KeyedMap;
use bittower::syncstate::Torrent;

fn torrent(name: &str) -> Torrent {
    let mut t = Torrent::default();
    t.name = name.to_string();
    t
}

#[test]
fn empty_map() {
    let m: KeyedMap<Torrent> = KeyedMap::new();
    assert_eq!(m.len(), 0);
    assert!(m.is_empty());
    assert!(m.get(&"a".to_string()).is_none());
    assert_eq!(m.index_of(&"a".to_string()), None);
}

#[test]
fn insert_get_replace() {
    let mut m = KeyedMap::new();
    m.insert("a".to_string(), torrent("one"));
    m.insert("b".to_string(), torrent("two"));
    assert_eq!(m.len(), 2);
    assert_eq!(m.get(&"a".to_string()).unwrap().name, "one");
    m.insert("a".to_string(), torrent("uno"));
    assert_eq!(m.len(), 2);
    assert_eq!(m.get(&"a".to_string()).unwrap().name, "uno");
    assert_eq!(m.key_at(0), "a");
    assert_eq!(m.key_at(1), "b");
    assert_eq!(m.value_at(1).name, "two");
    assert_eq!(m.index_of(&"b".to_string()), Some(1));
    assert!(m.contains_key(&"b".to_string()));
    assert!(!m.contains_key(&"c".to_string()));
}

#[test]
fn replace_at_hands_back_previous() {
    let mut m = KeyedMap::new();
    m.insert("a".to_string(), torrent("one"));
    let previous = m.replace_at(0, torrent("uno"));
    assert_eq!(previous.name, "one");
    assert_eq!(m.value_at(0).name, "uno");
    assert_eq!(m.key_at(0), "a");
}

#[test]
fn pop_takes_last() {
    let mut m = KeyedMap::new();
    m.insert("a".to_string(), torrent("one"));
    m.insert("b".to_string(), torrent("two"));
    let (k, v) = m.pop().unwrap();
    assert_eq!(k, "b");
    assert_eq!(v.name, "two");
    assert_eq!(m.len(), 1);
    assert!(!m.contains_key(&"b".to_string()));
    assert!(m.pop().is_some());
    assert!(m.pop().is_none());
}

#[test]
fn clone_keeps_keys_and_values() {
    let mut m = KeyedMap::new();
    m.insert("a".to_string(), torrent("one"));
    let c = m.clone();
    assert_eq!(c.len(), 1);
    assert_eq!(c.get(&"a".to_string()).unwrap().name, "one");
}
