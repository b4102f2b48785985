use hmf::strmap::{compare_bytes, StrMap};

#[test]
fn insert_keeps_keys_sorted_and_unique() {
    let mut m = StrMap::new();
    m.insert("b".to_string(), "1".to_string());
    m.insert("a".to_string(), "2".to_string());
    m.insert("b".to_string(), "3".to_string());
    m.insert("ab".to_string(), "4".to_string());
    let got: Vec<(String, String)> = m.entries().clone();
    assert_eq!(
        got,
        vec![
            ("a".to_string(), "2".to_string()),
            ("ab".to_string(), "4".to_string()),
            ("b".to_string(), "3".to_string()),
        ]
    );
    assert_eq!(m.len(), 3);
}

#[test]
fn from_pairs_sorts_and_later_wins() {
    let m = StrMap::from_pairs(vec![
        ("y".to_string(), "1".to_string()),
        ("x".to_string(), "2".to_string()),
        ("y".to_string(), "3".to_string()),
    ]);
    assert_eq!(
        m.into_pairs(),
        vec![("x".to_string(), "2".to_string()), ("y".to_string(), "3".to_string())]
    );
}

#[test]
fn byte_order_matches_string_order() {
    assert!(compare_bytes(b"a", b"b") < 0);
    assert!(compare_bytes(b"ab", b"a") > 0);
    assert_eq!(compare_bytes(b"", b""), 0);
    assert!(compare_bytes("é".as_bytes(), "z".as_bytes()) > 0);
}
