use homeworlds_engine::engine::operations::common::UpdateOneDelta;
use homeworlds_engine::engine::operations::utils::update_hashmap_count;
use homeworlds_engine::public::common::Count;
use std::collections::HashMap;

#[derive(Debug, PartialEq)]
enum TestError {
    Overflow,
    NotFound,
}

#[test]
fn test_add_one_to_vacant_entry() {
    let mut map: HashMap<String, Count> = HashMap::new();
    let entry = map.entry("key".to_string());

    let result = update_hashmap_count(
        entry,
        UpdateOneDelta::AddOne,
        TestError::Overflow,
        TestError::NotFound,
    );

    assert!(result.is_ok());
    assert_eq!(map.get("key").unwrap().get(), 1);
}

#[test]
fn test_add_one_to_occupied_entry() {
    let mut map: HashMap<String, Count> = HashMap::new();
    map.insert("key".to_string(), Count::new(5).unwrap());
    let entry = map.entry("key".to_string());

    let result = update_hashmap_count(
        entry,
        UpdateOneDelta::AddOne,
        TestError::Overflow,
        TestError::NotFound,
    );

    assert!(result.is_ok());
    assert_eq!(map.get("key").unwrap().get(), 6);
}

#[test]
fn test_add_one_overflow() {
    let mut map: HashMap<String, Count> = HashMap::new();
    map.insert("key".to_string(), Count::new(255).unwrap());
    let entry = map.entry("key".to_string());

    let result = update_hashmap_count(
        entry,
        UpdateOneDelta::AddOne,
        TestError::Overflow,
        TestError::NotFound,
    );

    assert_eq!(result, Err(TestError::Overflow));
    assert_eq!(map.get("key").unwrap().get(), 255);
}

#[test]
fn test_remove_one_decrement() {
    let mut map: HashMap<String, Count> = HashMap::new();
    map.insert("key".to_string(), Count::new(5).unwrap());
    let entry = map.entry("key".to_string());

    let result = update_hashmap_count(
        entry,
        UpdateOneDelta::RemoveOne,
        TestError::Overflow,
        TestError::NotFound,
    );

    assert!(result.is_ok());
    assert_eq!(map.get("key").unwrap().get(), 4);
}

#[test]
fn test_remove_one_removes_entry_at_one() {
    let mut map: HashMap<String, Count> = HashMap::new();
    map.insert("key".to_string(), Count::new(1).unwrap());
    let entry = map.entry("key".to_string());

    let result = update_hashmap_count(
        entry,
        UpdateOneDelta::RemoveOne,
        TestError::Overflow,
        TestError::NotFound,
    );

    assert!(result.is_ok());
    assert!(!map.contains_key("key"));
}

#[test]
fn test_remove_one_from_vacant_entry() {
    let mut map: HashMap<String, Count> = HashMap::new();
    let entry = map.entry("key".to_string());

    let result = update_hashmap_count(
        entry,
        UpdateOneDelta::RemoveOne,
        TestError::Overflow,
        TestError::NotFound,
    );

    assert_eq!(result, Err(TestError::NotFound));
    assert!(!map.contains_key("key"));
}

#[test]
fn test_add_one_multiple_times() {
    let mut map: HashMap<String, Count> = HashMap::new();

    for _ in 0..10 {
        let entry = map.entry("key".to_string());
        let result = update_hashmap_count(
            entry,
            UpdateOneDelta::AddOne,
            TestError::Overflow,
            TestError::NotFound,
        );
        assert!(result.is_ok());
    }

    assert_eq!(map.get("key").unwrap().get(), 10);
}

#[test]
fn test_remove_one_multiple_times() {
    let mut map: HashMap<String, Count> = HashMap::new();
    map.insert("key".to_string(), Count::new(10).unwrap());

    for i in (1..=10).rev() {
        let entry = map.entry("key".to_string());
        let result = update_hashmap_count(
            entry,
            UpdateOneDelta::RemoveOne,
            TestError::Overflow,
            TestError::NotFound,
        );
        assert!(result.is_ok());

        if i > 1 {
            assert_eq!(map.get("key").unwrap().get(), i - 1);
        } else {
            assert!(!map.contains_key("key"));
        }
    }
}

#[test]
fn add_one_fills_a_fresh_key_up_to_255() {
    let mut map: HashMap<u8, Count> = HashMap::new();
    for expected in 1..=255u8 {
        let result = update_hashmap_count(
            map.entry(7),
            UpdateOneDelta::AddOne,
            TestError::Overflow,
            TestError::NotFound,
        );
        assert_eq!(result, Ok(()));
        assert_eq!(map.get(&7).unwrap().get(), expected);
    }
    let result = update_hashmap_count(
        map.entry(7),
        UpdateOneDelta::AddOne,
        TestError::Overflow,
        TestError::NotFound,
    );
    assert_eq!(result, Err(TestError::Overflow));
    assert_eq!(map.get(&7).unwrap().get(), 255);
    assert_eq!(map.len(), 1);
}
