use iceberg_rs::catalog::{Namespace, TableIdentifier};
use iceberg_rs::error::IcebergError;

#[test]
fn test_new() {
    let identifier = TableIdentifier::try_new(&vec![
        "level1".to_string(),
        "level2".to_string(),
        "table".to_string(),
    ])
    .unwrap();
    assert_eq!(&identifier.to_string(), "level1.level2.table");
}

#[test]
#[should_panic]
fn test_empty() {
    let _ = TableIdentifier::try_new(&vec![
        "level1".to_string(),
        "level2".to_string(),
        "".to_string(),
    ])
    .unwrap();
}

#[test]
#[should_panic]
fn test_empty_identifier() {
    let _ = TableIdentifier::try_new(&vec![]).unwrap();
}

#[test]
fn test_parse() {
    let identifier = TableIdentifier::parse("level1.level2.table").unwrap();
    assert_eq!(&identifier.to_string(), "level1.level2.table");
}

#[test]
fn parse_gives_levels_and_name() {
    let identifier = TableIdentifier::parse("level1.level2.table").unwrap();
    assert_eq!(identifier.namespace().levels(), &["level1".to_string(), "level2".to_string()]);
    assert_eq!(identifier.namespace().len(), 2);
    assert_eq!(identifier.name(), "table");
}

#[test]
fn parse_needs_a_namespace() {
    assert!(matches!(TableIdentifier::parse("table"), Err(IcebergError::Validation(_))));
    assert!(matches!(TableIdentifier::try_new(&["table".to_string()]), Err(IcebergError::Validation(_))));
    let identifier = TableIdentifier::parse("ns.table").unwrap();
    assert_eq!(identifier.namespace().levels(), &["ns".to_string()]);
    assert_eq!(identifier.to_string(), "ns.table");
}

#[test]
fn parse_empty_string_fails() {
    assert!(matches!(TableIdentifier::parse(""), Err(IcebergError::Validation(_))));
}

#[test]
fn parse_empty_last_segment_fails() {
    assert!(matches!(TableIdentifier::parse("level1.level2."), Err(IcebergError::Validation(_))));
}

#[test]
fn parse_empty_middle_segment_fails() {
    assert!(TableIdentifier::parse("level1..table").is_err());
}

#[test]
fn namespace_rejects_empty_level() {
    assert!(matches!(
        Namespace::try_new(&["a".to_string(), "".to_string()]),
        Err(IcebergError::Validation(_))
    ));
    assert!(matches!(Namespace::try_new(&[]), Err(IcebergError::Validation(_))));
    let ns = Namespace::try_new(&["a".to_string(), "b".to_string()]).unwrap();
    assert_eq!(ns.to_string(), "a.b");
    assert_eq!(Namespace::empty().len(), 0);
    assert_eq!(Namespace::empty().to_string(), "");
}
