use huttripper::helpers::scores::ScoreTable;

#[test]
fn score_table_starts_empty() {
    let table = ScoreTable::new();
    assert!(table.entries().is_empty());
    assert_eq!(table.get("a"), None);
}

#[test]
fn score_table_keeps_each_key_once() {
    let table = ScoreTable::new()
        .with_score("a".to_string(), "1".to_string())
        .with_score("b".to_string(), "2".to_string())
        .with_score("a".to_string(), "3".to_string());
    assert_eq!(
        table.entries(),
        &vec![("a".to_string(), "3".to_string()), ("b".to_string(), "2".to_string())]
    );
    assert_eq!(table.get("a"), Some(&"3".to_string()));
    assert_eq!(table.get("b"), Some(&"2".to_string()));
    assert_eq!(table.get("c"), None);
}
