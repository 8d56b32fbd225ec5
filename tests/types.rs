use iceberg_rs::error::IcebergError;
use iceberg_rs::partition::PartitionField;
use iceberg_rs::types::{PrimitiveType, Transform};

#[test]
fn partition_test_partition_field() {
    let partition_field = PartitionField {
        source_id: 4,
        field_id: 1000,
        name: "ts_day".to_string(),
        transform: Transform::from_text("day").unwrap(),
    };
    assert_eq!(4, partition_field.source_id);
    assert_eq!(1000, partition_field.field_id);
    assert_eq!("ts_day", partition_field.name);
    assert_eq!(Transform::Day, partition_field.transform);
}

#[test]
fn partition_test_all_transforms() {
    let transforms = vec![
        Transform::Void,
        Transform::Identity,
        Transform::Year,
        Transform::Month,
        Transform::Day,
        Transform::Hour,
        Transform::Bucket(10),
        Transform::Truncate(10),
    ];
    for transform in transforms {
        let field = PartitionField {
            source_id: 4,
            field_id: 1000,
            name: "ts_day".to_string(),
            transform: Transform::from_text(&transform.to_text()).unwrap(),
        };
        assert_eq!(4, field.source_id);
        assert_eq!(1000, field.field_id);
        assert_eq!("ts_day", field.name);
        assert_eq!(transform, field.transform);
    }
}

#[test]
fn schema_test_decimal() {
    assert!(matches!(
        PrimitiveType::from_text("decimal(1,1)"),
        Ok(PrimitiveType::Decimal { precision: 1, scale: 1 })
    ));
    assert!(PrimitiveType::from_text("decimal(1,1000)").is_err());
}

#[test]
fn schema_test_boolean() {
    assert!(matches!(PrimitiveType::from_text("boolean"), Ok(PrimitiveType::Boolean)));
}

#[test]
fn schema_test_fixed() {
    assert!(matches!(PrimitiveType::from_text("fixed[1]"), Ok(PrimitiveType::Fixed(1))));
    assert!(PrimitiveType::from_text("fixed[0.1]").is_err());
}

#[test]
fn schema_test_all_valid_types() {
    let type_mappings = vec![
        PrimitiveType::Boolean,
        PrimitiveType::Int,
        PrimitiveType::Long,
        PrimitiveType::Float,
        PrimitiveType::Double,
        PrimitiveType::Decimal { precision: 1, scale: 2 },
        PrimitiveType::Date,
        PrimitiveType::Time,
        PrimitiveType::Timestamp,
        PrimitiveType::Timestampz,
        PrimitiveType::String,
        PrimitiveType::Uuid,
        PrimitiveType::Fixed(1),
        PrimitiveType::Binary,
    ];
    for t in type_mappings {
        assert_eq!(PrimitiveType::from_text(&t.to_text()).unwrap(), t);
    }
}

#[test]
fn type_text_forms() {
    assert_eq!(PrimitiveType::Decimal { precision: 38, scale: 10 }.to_text(), "decimal(38,10)");
    assert_eq!(PrimitiveType::Fixed(16).to_text(), "fixed[16]");
    assert_eq!(PrimitiveType::Decimal { precision: 38, scale: 10 }.to_string(), "decimal");
    assert_eq!(PrimitiveType::Timestampz.to_text(), "timestampz");
    assert_eq!(Transform::Bucket(16).to_text(), "bucket[16]");
    assert_eq!(Transform::Truncate(4).to_text(), "truncate[4]");
    assert_eq!(Transform::Identity.to_text(), "identity");
}

#[test]
fn transform_parse_errors() {
    assert!(matches!(Transform::from_text("bucket[x]"), Err(IcebergError::Format(_))));
    assert!(matches!(Transform::from_text("bucket[4294967296]"), Err(IcebergError::Format(_))));
    assert!(matches!(Transform::from_text("bucket"), Err(IcebergError::Format(_))));
    assert!(matches!(Transform::from_text("truncate[]"), Err(IcebergError::Format(_))));
    assert!(matches!(Transform::from_text("days"), Err(IcebergError::Format(_))));
    assert_eq!(Transform::from_text("bucket[007]").unwrap(), Transform::Bucket(7));
    assert_eq!(Transform::from_text("truncate[4294967295]").unwrap(), Transform::Truncate(4294967295));
}

#[test]
fn type_parse_errors() {
    assert!(matches!(PrimitiveType::from_text("decimal(1)"), Err(IcebergError::Format(_))));
    assert!(matches!(PrimitiveType::from_text("decimal(1,2,3)"), Err(IcebergError::Format(_))));
    assert!(matches!(PrimitiveType::from_text("decimal"), Err(IcebergError::Format(_))));
    assert!(matches!(PrimitiveType::from_text("fixed[]"), Err(IcebergError::Format(_))));
    assert!(matches!(PrimitiveType::from_text("integer"), Err(IcebergError::Format(_))));
    assert_eq!(
        PrimitiveType::from_text("decimal(38,255)").unwrap(),
        PrimitiveType::Decimal { precision: 38, scale: 255 }
    );
}
