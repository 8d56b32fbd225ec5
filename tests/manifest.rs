use iceberg_rs::error::IcebergError;
use iceberg_rs::manifest::{
    canonicalize_for_read, rename_for_write, AvroMap, FileFormat, ManifestMetadata, PartitionSchemaCache, PartitionStruct,
    Status,
};
use iceberg_rs::partition::PartitionField;
use iceberg_rs::types::Transform;

#[test]
fn partition_write_schema_uses_spec_name() {
    let s = PartitionStruct::write_schema("ts_day");
    assert_eq!(
        s,
        r#"{"type": "record","name": "r102","fields": [{"name": "ts_day", "type":  ["null","long"], "aliases": ["partition_spec_name"], "default": null}]}"#
    );
}

#[test]
fn partition_read_schema_picks_field() {
    let fields = vec![
        PartitionField { source_id: 1, field_id: 1000, name: "a".to_string(), transform: Transform::Identity },
        PartitionField { source_id: 2, field_id: 1001, name: "b".to_string(), transform: Transform::Day },
    ];
    assert_eq!(PartitionStruct::read_schema(&fields, 1).unwrap(), PartitionStruct::write_schema("b"));
    assert!(matches!(PartitionStruct::read_schema(&fields, 2), Err(IcebergError::Format(_))));
    assert!(PartitionStruct::read_schema(&fields, -1).is_err());
}

#[test]
fn partition_name_round_trip() {
    let mut names = vec!["partition_spec_name".to_string()];
    rename_for_write(&mut names, "ts_day");
    assert_eq!(names, vec!["ts_day".to_string()]);
    canonicalize_for_read(&mut names);
    assert_eq!(names, vec!["partition_spec_name".to_string()]);
    let mut two = vec!["x".to_string(), "y".to_string()];
    canonicalize_for_read(&mut two);
    assert_eq!(two, vec!["x".to_string(), "y".to_string()]);
}

#[test]
fn avro_map_last_write_wins() {
    let m = AvroMap::from_pairs(vec![(1, 10i64), (2, 20), (1, 30)]);
    assert_eq!(m.len(), 2);
    assert_eq!(m.get(1), Some(&30));
    assert_eq!(m.get(2), Some(&20));
    assert_eq!(m.get(3), None);
}

#[test]
fn manifest_metadata_keys() {
    let entries = vec![
        ("schema".to_string(), "{}".to_string()),
        ("format-version".to_string(), "2".to_string()),
        ("partition-spec-id".to_string(), "0".to_string()),
    ];
    let m = ManifestMetadata::from_user_metadata(&entries).unwrap();
    assert_eq!(m.schema, "{}");
    assert_eq!(m.format_version.as_deref(), Some("2"));
    assert_eq!(m.partition_spec_id.as_deref(), Some("0"));
    assert_eq!(m.schema_id, None);
    assert_eq!(m.content, None);
    let missing = vec![("format-version".to_string(), "2".to_string())];
    assert!(matches!(ManifestMetadata::from_user_metadata(&missing), Err(IcebergError::Format(_))));
}

#[test]
fn status_codes_and_formats() {
    assert_eq!(Status::Added.code(), 1);
    assert_eq!(Status::from_code(2), Some(Status::Deleted));
    assert_eq!(Status::from_code(3), None);
    assert_eq!(FileFormat::Parquet.to_text(), "PARQUET");
    assert_eq!(FileFormat::from_text("ORC").unwrap(), FileFormat::Orc);
    assert!(matches!(FileFormat::from_text("orc"), Err(IcebergError::Format(_))));
}

#[test]
fn partition_schema_cache_memoizes() {
    let mut cache = PartitionSchemaCache::new();
    let a = cache.schema_for(1, "ts_day");
    assert_eq!(a, PartitionStruct::write_schema("ts_day"));
    let again = cache.schema_for(1, "other");
    assert_eq!(again, a);
    let b = cache.schema_for(2, "other");
    assert_eq!(b, PartitionStruct::write_schema("other"));
}
