use dockertest_server::common::{format_address, format_auth_url, format_url, u32_string};
use dockertest_server::strmap::StringMap;
use dockertest_server::{new_handle, rand_string};

#[test]
fn test_new_handle() {
    let result = new_handle("test");
    assert_eq!(result.len(), 14);
}

#[test]
fn test_rand_string() {
    let result = rand_string(10);
    assert_eq!(result.len(), 10);
}

#[test]
fn rand_string_length_and_alphabet() {
    let lengths: Vec<usize> = vec![0, 1, 10, 32];
    for len in lengths {
        let s = rand_string(len);
        assert_eq!(s.len(), len);
        assert!(s.chars().all(|c| c.is_ascii_alphanumeric()));
    }
}

#[test]
fn rand_string_consecutive_calls_differ() {
    let a = rand_string(32);
    let b = rand_string(32);
    assert_ne!(a, b);
}

#[test]
fn new_handle_keeps_name_prefix() {
    let h = new_handle("vault");
    assert_eq!(h.len(), 15);
    assert!(h.starts_with("vault"));
    assert!(h[5..].chars().all(|c| c.is_ascii_alphanumeric()));
}

#[test]
fn decimal_formatting_exact() {
    assert_eq!(u32_string(0), "0");
    assert_eq!(u32_string(7), "7");
    assert_eq!(u32_string(10), "10");
    assert_eq!(u32_string(9080), "9080");
    assert_eq!(u32_string(u32::MAX), "4294967295");
}

#[test]
fn address_formatting_exact() {
    assert_eq!(format_address("localhost", 9080), "localhost:9080");
    assert_eq!(format_url("http", "localhost", 8200), "http://localhost:8200");
    assert_eq!(format_url("redis", "10.0.0.7", 6379), "redis://10.0.0.7:6379");
    assert_eq!(
        format_auth_url("postgresql", "postgres", "pw", "localhost", 6432),
        "postgresql://postgres:pw@localhost:6432"
    );
}

#[test]
fn string_map_insert_and_get() {
    let mut m = StringMap::new();
    assert_eq!(m.get("A"), None);
    m.insert("A".to_string(), "1".to_string());
    m.insert("B".to_string(), "2".to_string());
    assert_eq!(m.get("A"), Some(&"1".to_string()));
    assert_eq!(m.get("B"), Some(&"2".to_string()));
    assert_eq!(m.get("C"), None);
}

#[test]
fn string_map_later_insert_shadows() {
    let mut m = StringMap::new();
    m.insert("KEY".to_string(), "old".to_string());
    m.insert("KEY".to_string(), "new".to_string());
    assert_eq!(m.get("KEY"), Some(&"new".to_string()));
}

#[test]
fn string_map_entries_keep_insertion_order() {
    let mut m = StringMap::new();
    m.insert("A".to_string(), "1".to_string());
    m.insert("B".to_string(), "2".to_string());
    let entries = m.entries();
    assert_eq!(entries.len(), 2);
    assert_eq!(entries[0], ("A".to_string(), "1".to_string()));
    assert_eq!(entries[1], ("B".to_string(), "2".to_string()));
}

#[test]
fn string_map_clone_preserves_entries() {
    let mut m = StringMap::new();
    m.insert("A".to_string(), "1".to_string());
    let c = m.clone();
    assert_eq!(c.get("A"), Some(&"1".to_string()));
    assert_eq!(c.entries(), m.entries());
}
