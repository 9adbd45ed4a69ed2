use tristage::utility::unordered_map::{KeyError, UnorderedMap};

#[test]
fn add_get() {
    let mut map = UnorderedMap::new();
    let first = map.add('a');

    assert_eq!(map.get(first).unwrap(), (0, &'a'));
    assert_eq!(map.values().len(), 1);
}

#[test]
fn add_clear() {
    let mut map = UnorderedMap::new();
    let _first = map.add('a');
    map.clear();

    assert_eq!(map.values().len(), 0);
}

#[test]
fn add_twice_get_second() {
    let mut map = UnorderedMap::new();
    let _first = map.add('a');
    let second = map.add('b');

    assert_eq!(map.get(second).unwrap(), (1, &'b'));
    assert_eq!(map.values().len(), 2);
}

#[test]
fn add_twice_get_first() {
    let mut map = UnorderedMap::new();
    let first = map.add('a');
    let _second = map.add('b');

    assert_eq!(map.get(first).unwrap(), (0, &'a'));
    assert_eq!(map.values().len(), 2);
}

#[test]
fn add_remove() {
    let mut map = UnorderedMap::new();
    let first = map.add('a');
    let (index, _value) = map.remove(first).unwrap();

    assert_eq!(index, 0);
    assert_eq!(map.values().len(), 0);
}

#[test]
#[should_panic]
fn add_remove_old_key_panic() {
    let mut map = UnorderedMap::new();
    let first = map.add('a');
    map.remove(first).unwrap();

    assert_eq!(map.values().len(), 0);
    map.remove(first).unwrap(); // Panic!
}

#[test]
#[should_panic]
fn add_get_old_key_panic() {
    let mut map = UnorderedMap::new();
    let first = map.add('a');
    map.remove(first).unwrap();

    assert_eq!(map.values().len(), 0);
    map.get(first).unwrap(); // Panic!
}

#[test]
fn add_twice_remove_second() {
    let mut map = UnorderedMap::new();
    let _first = map.add('a');
    let second = map.add('b');
    let (index, _value) = map.remove(second).unwrap();

    assert_eq!(index, 1);
    assert_eq!(map.values().len(), 1);
}

#[test]
fn add_twice_remove_first() {
    let mut map = UnorderedMap::new();
    let first = map.add('a');
    let _second = map.add('b');
    let (index, _value) = map.remove(first).unwrap();

    assert_eq!(index, 0);
    assert_eq!(map.values().len(), 1);
}

#[test]
fn add_twice_remove_first_swaps() {
    let mut map = UnorderedMap::new();
    let first = map.add('a');
    let second = map.add('b');
    map.remove(first).unwrap();

    assert_eq!(map.get(second).unwrap(), (0, &'b'));
    assert_eq!(map.values().len(), 1);
}

#[test]
fn add_thrice_remove_first_swaps_ignores_second() {
    let mut map = UnorderedMap::new();
    let first = map.add('a');
    let second = map.add('b');
    let _third = map.add('c');
    map.remove(first).unwrap();

    assert_eq!(map.get(second).unwrap(), (1, &'b'));
    assert_eq!(map.values().len(), 2);
}

#[test]
fn add_twice_remove_first_add() {
    let mut map = UnorderedMap::new();
    let first = map.add('a');
    let _second = map.add('b');
    map.remove(first).unwrap();
    let third = map.add('c');

    assert_eq!(map.get(third).unwrap(), (1, &'c'));
    assert_eq!(map.values().len(), 2);
}

#[test]
fn new_map_is_empty() {
    let map: UnorderedMap<u32> = UnorderedMap::new();
    assert_eq!(map.len(), 0);
    assert!(map.values().is_empty());
}

#[test]
fn remove_returns_the_value() {
    let mut map = UnorderedMap::new();
    let first = map.add(String::from("first"));
    let second = map.add(String::from("second"));

    assert_eq!(map.remove(second).unwrap(), (1, String::from("second")));
    assert_eq!(map.remove(first).unwrap(), (0, String::from("first")));
    assert_eq!(map.len(), 0);
}

#[test]
fn remove_first_of_three_moves_the_last_into_its_place() {
    let mut map = UnorderedMap::new();
    let key_a = map.add('a');
    let key_b = map.add('b');
    let key_c = map.add('c');

    assert_eq!(map.remove(key_a).unwrap(), (0, 'a'));
    assert_eq!(map.get(key_b).unwrap(), (1, &'b'));
    assert_eq!(map.get(key_c).unwrap(), (0, &'c'));
    assert_eq!(map.values(), &vec!['c', 'b']);
}

#[test]
fn stale_key_is_refused_and_changes_nothing() {
    let mut map = UnorderedMap::new();
    let first = map.add(1u32);
    let second = map.add(2u32);
    map.remove(first).unwrap();

    assert_eq!(map.get(first), Err(KeyError::Stale));
    assert_eq!(map.remove(first), Err(KeyError::Stale));
    assert!(matches!(map.get_mut(first), Err(KeyError::Stale)));
    assert!(!map.contains(first));
    assert!(map.contains(second));
    assert_eq!(map.len(), 1);
    assert_eq!(map.get(second).unwrap(), (0, &2));
}

#[test]
fn reissued_identifier_does_not_revive_the_old_key() {
    let mut map = UnorderedMap::new();
    let old = map.add('a');
    map.remove(old).unwrap();
    let new = map.add('b');

    assert!(old != new);
    assert_eq!(map.get(old), Err(KeyError::Stale));
    assert_eq!(map.get(new).unwrap(), (0, &'b'));
    // However often the identifier goes round, the first key stays stale.
    let mut latest = new;
    for round in 0..100u32 {
        map.remove(latest).unwrap();
        latest = map.add('c');
        assert!(latest != old, "round {}", round);
        assert_eq!(map.get(old), Err(KeyError::Stale));
    }
    assert_eq!(map.len(), 1);
}

#[test]
fn clear_makes_every_key_stale() {
    let mut map = UnorderedMap::new();
    let first = map.add('a');
    let second = map.add('b');
    map.clear();

    assert_eq!(map.len(), 0);
    assert_eq!(map.get(first), Err(KeyError::Stale));
    assert_eq!(map.get(second), Err(KeyError::Stale));
    let third = map.add('c');
    assert!(third != first && third != second);
    assert_eq!(map.get(first), Err(KeyError::Stale));
    assert_eq!(map.get(second), Err(KeyError::Stale));
    assert_eq!(map.get(third).unwrap(), (0, &'c'));
}

#[test]
fn get_mut_changes_the_value_in_place() {
    let mut map = UnorderedMap::new();
    let first = map.add(10u32);
    let second = map.add(20u32);
    {
        let (index, value) = map.get_mut(second).unwrap();
        assert_eq!(index, 1);
        assert_eq!(*value, 20);
        *value = 21;
    }
    assert_eq!(map.get(first).unwrap(), (0, &10));
    assert_eq!(map.get(second).unwrap(), (1, &21));
}

#[test]
fn every_live_key_resolves_to_what_was_added() {
    // A fixed run of additions and removals, checked against a plain list.
    let mut map = UnorderedMap::new();
    let mut live: Vec<(tristage::utility::unordered_tracker::Key<u32>, u32)> = Vec::new();
    let mut removed = Vec::new();
    let mut seed: u32 = 12345;
    for step in 0..2000u32 {
        seed = seed.wrapping_mul(1664525).wrapping_add(1013904223);
        if live.is_empty() || (seed >> 16) % 3 != 0 {
            let key = map.add(step);
            live.push((key, step));
        } else {
            let at = ((seed >> 8) as usize) % live.len();
            let (key, value) = live.swap_remove(at);
            let (_, got) = map.remove(key).unwrap();
            assert_eq!(got, value);
            removed.push(key);
        }
        assert_eq!(map.len(), live.len());
    }
    for (key, value) in live.iter() {
        let (index, got) = map.get(*key).unwrap();
        assert_eq!(got, value);
        assert_eq!(map.values()[index], *value);
    }
    for key in removed.iter() {
        assert_eq!(map.get(*key), Err(KeyError::Stale));
    }
}
