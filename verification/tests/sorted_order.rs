//! The sorted association vector and the string order underneath it.

use poloniex_connect::interval::Interval;
use poloniex_connect::interval::IntervalKind;
use poloniex_connect::order::bytes_cmp;
use poloniex_connect::order::str_cmp;
use poloniex_connect::order::KeyCmp;
use poloniex_connect::sorted_vec::Entry;
use poloniex_connect::sorted_vec::SortedVec;

fn minute(value: u8) -> Interval {
    Interval { kind: IntervalKind::Minute, value }
}

#[test]
fn string_comparison_is_bytewise_lexicographic() {
    assert!(matches!(str_cmp("abc", "abd"), KeyCmp::Less));
    assert!(matches!(str_cmp("abc", "abc"), KeyCmp::Equal));
    assert!(matches!(str_cmp("abd", "abc"), KeyCmp::Greater));
    assert!(matches!(str_cmp("ab", "abc"), KeyCmp::Less));
    assert!(matches!(str_cmp("", "a"), KeyCmp::Less));
    // Upper case sorts before lower case, as in byte order.
    assert!(matches!(str_cmp("Z", "a"), KeyCmp::Less));
    assert!(matches!(bytes_cmp(&[1, 2], &[1, 2, 0]), KeyCmp::Less));
    assert!(matches!(bytes_cmp(&[2], &[1, 9]), KeyCmp::Greater));
}

#[test]
fn entries_find_their_place_and_insert() {
    let mut sv: SortedVec<Interval, String> = SortedVec::new();
    match sv.entry(minute(15)) {
        Entry::Vacant(vacant) => {
            vacant.insert(&mut sv, "15m".to_owned());
        }
        Entry::Occupied(_) => panic!("empty vector cannot have the key"),
    }
    match sv.entry(minute(1)) {
        Entry::Vacant(vacant) => {
            vacant.insert(&mut sv, "1m".to_owned());
        }
        Entry::Occupied(_) => panic!("key was never inserted"),
    }
    assert_eq!(sv.len(), 2);
    // Keys are kept sorted regardless of insertion order.
    assert_eq!(*sv.key_at(0), minute(1));
    assert_eq!(*sv.key_at(1), minute(15));
    match sv.entry(minute(15)) {
        Entry::Occupied(occupied) => {
            let (key, value) = occupied.key_value(&sv);
            assert_eq!(*key, minute(15));
            assert_eq!(value, "15m");
            assert_eq!(*occupied.key(&sv), minute(15));
            assert_eq!(occupied.value(&sv), "15m");
        }
        Entry::Vacant(_) => panic!("key was inserted"),
    }
    assert_eq!(sv.get(&minute(1)), Some(&"1m".to_owned()));
    assert_eq!(sv.get(&minute(5)), None);
}

#[test]
fn get_mut_or_insert_default_inserts_then_finds() {
    let mut sv: SortedVec<Interval, String> = SortedVec::new();
    // Absent key: the default (empty) value is inserted and handed out.
    let value = sv.get_mut_or_insert_default(minute(5));
    assert_eq!(value, "");
    value.push_str("5m");
    // Present key: the stored value is handed out, nothing is inserted.
    let value = sv.get_mut_or_insert_default(minute(5));
    assert_eq!(value, "5m");
    assert_eq!(sv.len(), 1);
    assert_eq!(sv.get(&minute(5)), Some(&"5m".to_owned()));
}

#[test]
fn occupied_entries_give_mutable_access() {
    let mut sv: SortedVec<Interval, String> = SortedVec::new();
    match sv.entry(minute(1)) {
        Entry::Vacant(vacant) => {
            vacant.insert(&mut sv, "1m".to_owned());
        }
        Entry::Occupied(_) => panic!("empty vector cannot have the key"),
    }
    match sv.entry(minute(1)) {
        Entry::Occupied(occupied) => {
            let value = occupied.into_mut_value(&mut sv);
            *value = "one_minute".to_owned();
        }
        Entry::Vacant(_) => panic!("key was inserted"),
    }
    assert_eq!(sv.get(&minute(1)), Some(&"one_minute".to_owned()));
}
