use hearthstone::assoc::LinearMap;
use hearthstone::enums::PlayReq;

#[test]
fn new_map_is_empty() {
    let map: LinearMap<PlayReq, i32> = LinearMap::new();
    assert_eq!(map.len(), 0);
    assert!(!map.contains_key(&PlayReq::MinionTarget));
    assert!(map.get(&PlayReq::MinionTarget).is_none());
    assert!(map.entries().is_empty());
}

#[test]
fn insert_adds_a_key() {
    let mut map: LinearMap<PlayReq, i32> = LinearMap::new();
    map.insert(PlayReq::MinionTarget, 0);
    map.insert(PlayReq::TargetMaxAttack, 3);
    assert_eq!(map.len(), 2);
    assert!(map.contains_key(&PlayReq::MinionTarget));
    assert!(map.contains_key(&PlayReq::TargetMaxAttack));
    assert!(!map.contains_key(&PlayReq::EnemyTarget));
    assert_eq!(map.get(&PlayReq::MinionTarget), Some(&0));
    assert_eq!(map.get(&PlayReq::TargetMaxAttack), Some(&3));
    assert_eq!(map.get(&PlayReq::EnemyTarget), None);
}

#[test]
fn insert_replaces_the_value_of_a_key() {
    let mut map: LinearMap<PlayReq, i32> = LinearMap::new();
    map.insert(PlayReq::MinionTarget, 1);
    map.insert(PlayReq::TargetMaxAttack, 2);
    map.insert(PlayReq::MinionTarget, 7);
    assert_eq!(map.len(), 2);
    assert_eq!(map.get(&PlayReq::MinionTarget), Some(&7));
    assert_eq!(map.get(&PlayReq::TargetMaxAttack), Some(&2));
}

#[test]
fn entries_keep_the_order_of_first_insertion() {
    let mut map: LinearMap<PlayReq, i32> = LinearMap::new();
    map.insert(PlayReq::TargetMaxAttack, 2);
    map.insert(PlayReq::MinionTarget, 1);
    map.insert(PlayReq::EnemyTarget, 5);
    map.insert(PlayReq::TargetMaxAttack, 9);
    let entries = map.entries();
    assert_eq!(entries.len(), 3);
    assert_eq!(entries[0], (PlayReq::TargetMaxAttack, 9));
    assert_eq!(entries[1], (PlayReq::MinionTarget, 1));
    assert_eq!(entries[2], (PlayReq::EnemyTarget, 5));
}

#[test]
fn text_keys_are_told_apart_by_their_characters() {
    let mut map: LinearMap<String, i32> = LinearMap::new();
    map.insert(String::from("CS2_029"), 1);
    map.insert(String::from("CS2_030"), 2);
    map.insert(String::from("CS2_029"), 3);
    assert_eq!(map.len(), 2);
    assert_eq!(map.get(&String::from("CS2_029")), Some(&3));
    assert_eq!(map.get(&String::from("CS2_030")), Some(&2));
    assert_eq!(map.get(&String::from("cs2_029")), None);
    assert_eq!(map.get(&String::from("")), None);
}
