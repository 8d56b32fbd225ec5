use iceberg_rs::error::IcebergError;
use iceberg_rs::metadata::{check_format_version, parse_table_uuid, MetadataV1, MetadataV2, TableMetadata};
use iceberg_rs::partition::PartitionField;
use iceberg_rs::schema::{AllType, SchemaStruct, SchemaV1, StructField};
use iceberg_rs::snapshot::SnapshotV1;
use iceberg_rs::types::{PrimitiveType, Transform};

fn v1_document(schema_id: Option<i32>, with_ids: bool) -> MetadataV1 {
    MetadataV1 {
        table_uuid: None,
        location: "s3://b/wh/data.db/table".to_string(),
        last_updated_ms: 1515100955770,
        last_column_id: 1,
        schema: SchemaV1 {
            schema_id,
            identifier_field_ids: None,
            name_mapping: None,
            struct_fields: SchemaStruct {
                fields: vec![StructField {
                    id: 1,
                    name: "struct_name".to_string(),
                    required: true,
                    field_type: AllType::Primitive(PrimitiveType::Fixed(1)),
                    doc: None,
                }],
            },
        },
        schemas: None,
        current_schema_id: if with_ids { Some(7) } else { None },
        partition_spec: vec![
            PartitionField { source_id: 4, field_id: 1000, name: "ts_day".to_string(), transform: Transform::Day },
            PartitionField { source_id: 1, field_id: 1002, name: "id_bucket".to_string(), transform: Transform::Bucket(16) },
            PartitionField { source_id: 2, field_id: 1001, name: "name".to_string(), transform: Transform::Identity },
        ],
        partition_specs: None,
        default_spec_id: if with_ids { Some(3) } else { None },
        last_partition_id: if with_ids { Some(2000) } else { None },
        properties: None,
        current_snapshot_id: Some(638933773299822130),
        snapshots: Some(vec![SnapshotV1 {
            snapshot_id: 638933773299822130,
            parent_snapshot_id: None,
            timestamp_ms: 1662532818843,
            manifest_list: Some("/home/iceberg/warehouse/nyc/taxis/metadata/snap-638933773299822130-1-7e6760f0-4f6c-4b23-b907-0a5a174e3863.avro".to_string()),
            manifests: None,
            summary: None,
            schema_id: Some(0),
        }]),
        snapshot_log: None,
        metadata_log: None,
        sort_orders: vec![],
        default_sort_order_id: 0,
    }
}

#[test]
fn upgrade_v1_document() {
    let m = MetadataV2::from_v1(v1_document(Some(0), false), 42);
    assert_eq!(m.table_uuid, 42);
    assert_eq!(m.last_sequence_number, 0);
    assert_eq!(m.current_schema_id, 0);
    assert_eq!(m.default_spec_id, 0);
    assert_eq!(m.last_partition_id, 1002);
    assert_eq!(m.schemas.len(), 1);
    assert_eq!(m.partition_specs.len(), 1);
    assert_eq!(m.partition_specs[0].spec_id, 0);
    assert_eq!(m.partition_specs[0].fields.len(), 3);
    assert!(m.refs.is_none());
    let snaps = m.snapshots.as_ref().unwrap();
    assert_eq!(snaps[0].sequence_number, 0);
    assert_eq!(snaps[0].snapshot_id, 638933773299822130);
    assert_eq!(m.current_snapshot().unwrap().snapshot_id, 638933773299822130);
    assert_eq!(m.current_schema().schema_id, 0);
    assert_eq!(m.default_spec().spec_id, 0);
}

#[test]
fn upgrade_keeps_recorded_ids() {
    let mut doc = v1_document(None, true);
    doc.table_uuid = Some(7);
    let m = MetadataV2::from_v1(doc, 42);
    assert_eq!(m.table_uuid, 7);
    assert_eq!(m.current_schema_id, 7);
    assert_eq!(m.default_spec_id, 3);
    assert_eq!(m.last_partition_id, 2000);
}

#[test]
fn upgrade_missing_schema_id_is_zero() {
    let m = MetadataV2::from_v1(v1_document(None, false), 1);
    assert_eq!(m.current_schema_id, 0);
    assert_eq!(m.schemas[0].schema_id, 0);
}

#[test]
fn upgrade_defaults_are_idempotent() {
    let once = v1_document(Some(5), false).with_defaults();
    assert_eq!(once.current_schema_id, Some(5));
    assert_eq!(once.default_spec_id, Some(0));
    assert_eq!(once.last_partition_id, Some(1002));
    let twice = v1_document(Some(5), false).with_defaults().with_defaults();
    assert_eq!(once, twice);
    let a = MetadataV2::from_v1(v1_document(Some(5), false), 9);
    let b = MetadataV2::from_v1(v1_document(Some(5), false).with_defaults(), 9);
    assert_eq!(a, b);
}

#[test]
fn table_metadata_versions() {
    let v1 = TableMetadata::V1(v1_document(Some(0), false));
    assert_eq!(v1.format_version(), 1);
    let latest = v1.to_latest(3);
    let v2 = TableMetadata::V2(latest);
    assert_eq!(v2.format_version(), 2);
    assert_eq!(v2.to_latest(4).table_uuid, 3);
}

#[test]
fn metadata_test_invalid_table_uuid() {
    assert!(matches!(parse_table_uuid("xxxx"), Err(IcebergError::Format(_))));
}

#[test]
fn valid_table_uuid() {
    assert_eq!(
        parse_table_uuid("fb072c92-a02b-11e9-ae9c-1bb7bc9eca94").unwrap(),
        0xfb072c92_a02b_11e9_ae9c_1bb7bc9eca94u128
    );
}

#[test]
fn format_versions() {
    assert_eq!(check_format_version(Some(1)).unwrap(), 1);
    assert_eq!(check_format_version(Some(2)).unwrap(), 2);
    assert!(matches!(check_format_version(Some(3)), Err(IcebergError::Format(_))));
    assert!(matches!(check_format_version(None), Err(IcebergError::Format(_))));
}

#[test]
fn current_snapshot_absent() {
    let mut m = MetadataV2::from_v1(v1_document(Some(0), false), 1);
    m.current_snapshot_id = Some(5);
    assert!(m.current_snapshot().is_none());
    m.current_snapshot_id = None;
    assert!(m.current_snapshot().is_none());
}
