use iceberg_rs::commit::{latest_version, parse_i64, CommitStep, MetadataPointer, StoreEvent};
use iceberg_rs::error::IcebergError;
use iceberg_rs::files::DataFileStream;
use iceberg_rs::manifest::{ManifestEntry, Status};
use iceberg_rs::schema::{AllType, SchemaStruct, SchemaV2, StructField};
use iceberg_rs::table::{manifest_list_after_append, metadata_file_path, Table, TableBuilder};
use iceberg_rs::types::PrimitiveType;
use iceberg_rs::util::strip_prefix;

fn schema() -> SchemaV2 {
    SchemaV2 {
        schema_id: 1,
        identifier_field_ids: Some(vec![1, 2]),
        name_mapping: None,
        struct_fields: SchemaStruct {
            fields: vec![
                StructField {
                    id: 1,
                    name: "one".to_string(),
                    required: false,
                    field_type: AllType::Primitive(PrimitiveType::String),
                    doc: None,
                },
                StructField {
                    id: 2,
                    name: "two".to_string(),
                    required: false,
                    field_type: AllType::Primitive(PrimitiveType::String),
                    doc: None,
                },
            ],
        },
    }
}

fn new_table(location: &str) -> Table {
    let builder = TableBuilder::new(None, location.to_string(), schema(), 1, 0);
    let path = builder.metadata_path(2);
    builder.build(path)
}

fn drain(stream: &mut DataFileStream, contents: &mut Vec<Vec<ManifestEntry>>) -> Vec<ManifestEntry> {
    let mut out = Vec::new();
    loop {
        if let Some(e) = stream.next_entry() {
            out.push(e);
        } else if let Some(i) = stream.next_manifest() {
            stream.load(std::mem::take(&mut contents[i]));
        } else {
            return out;
        }
    }
}

#[test]
fn filesystem_table_metadata_locations() {
    let mut table = new_table("test/table1");
    assert_eq!(table.metadata_location(), "test/table1/metadata/v0.metadata.json");
    assert!(table.identifier().is_none());
    let transaction = table.new_transaction();
    let plans = table.apply(transaction, 10).unwrap();
    assert!(plans.is_empty());
    let (temp, canonical) = table.commit_paths(5);
    assert_eq!(canonical.unwrap(), "test/table1/metadata/v1.metadata.json");
    assert!(temp.starts_with("test/table1/metadata/"));
    assert!(temp.ends_with(".metadata.json"));
    assert_eq!(temp.len(), "test/table1/metadata/".len() + 36 + ".metadata.json".len());
    assert_eq!(metadata_file_path("test/table1", 12), "test/table1/metadata/v12.metadata.json");
    assert_eq!(metadata_file_path("t", -3), "t/metadata/v-3.metadata.json");
}

#[test]
fn fast_append_streams_appended_files() {
    let mut table = new_table("test/append");
    let transaction = table
        .new_transaction()
        .fast_append(vec!["a.parquet".to_string(), "b.parquet".to_string()]);
    let mut plans = table.apply(transaction, 10).unwrap();
    assert_eq!(plans.len(), 1);
    let plan = plans.pop().unwrap();
    let snapshot = table.metadata().current_snapshot().unwrap();
    assert_eq!(snapshot.manifest_list, plan.manifest_list_path);
    assert_eq!(snapshot.sequence_number, 1);
    assert_eq!(snapshot.parent_snapshot_id, None);
    assert!(plan.manifest_list_path.starts_with("test/append/metadata/snap-"));
    assert!(plan.manifest_path.ends_with("-m0.avro"));
    assert_eq!(plan.summary.manifest_path, plan.manifest_path);
    let list = manifest_list_after_append(table.manifests().to_vec(), plan.summary.clone());
    let reloaded = Table::new_file_system(
        iceberg_rs::metadata::MetadataV2::from_v1(test_v1(), 1),
        "x".to_string(),
        list,
    );
    let mut stream = reloaded.files(None);
    let mut contents = vec![plan.entries];
    let files = drain(&mut stream, &mut contents);
    assert_eq!(files.len(), 2);
    assert_eq!(files[0].file_path(), "a.parquet");
    assert_eq!(files[1].file_path(), "b.parquet");
    assert!(files.iter().all(|e| e.status == Status::Added));
}

fn test_v1() -> iceberg_rs::metadata::MetadataV1 {
    iceberg_rs::metadata::MetadataV1 {
        table_uuid: None,
        location: "x".to_string(),
        last_updated_ms: 0,
        last_column_id: 0,
        schema: iceberg_rs::schema::SchemaV1 {
            schema_id: None,
            identifier_field_ids: None,
            name_mapping: None,
            struct_fields: SchemaStruct { fields: vec![] },
        },
        schemas: None,
        current_schema_id: None,
        partition_spec: vec![],
        partition_specs: None,
        default_spec_id: None,
        last_partition_id: None,
        properties: None,
        current_snapshot_id: None,
        snapshots: None,
        snapshot_log: None,
        metadata_log: None,
        sort_orders: vec![],
        default_sort_order_id: 0,
    }
}

#[test]
fn second_append_comes_after_first() {
    let mut table = new_table("test/append");
    let t1 = table.new_transaction().fast_append(vec!["file1".to_string(), "file2".to_string()]);
    let first_plan = table.apply(t1, 1).unwrap().pop().unwrap();
    let first_snapshot = table.metadata().current_snapshot_id;
    let t2 = table.new_transaction().fast_append(vec!["file3".to_string(), "file4".to_string()]);
    let second_plan = table.apply(t2, 2).unwrap().pop().unwrap();
    assert_eq!(table.metadata().current_snapshot().unwrap().parent_snapshot_id, first_snapshot);
    assert_eq!(table.metadata().current_snapshot().unwrap().sequence_number, 2);
    let list = manifest_list_after_append(vec![first_plan.summary.clone()], second_plan.summary.clone());
    assert_eq!(list.len(), 2);
    let mut stream = DataFileStream::new(list.len(), None);
    let mut contents = vec![first_plan.entries, second_plan.entries];
    let files: Vec<String> = drain(&mut stream, &mut contents).iter().map(|e| e.file_path().to_string()).collect();
    assert_eq!(files, vec!["file1", "file2", "file3", "file4"]);
}

fn entry_named(path: &str) -> ManifestEntry {
    let mut t = new_table("t");
    let tr = t.new_transaction().fast_append(vec![path.to_string()]);
    t.apply(tr, 0).unwrap().pop().unwrap().entries.pop().unwrap()
}

#[test]
fn pruning_mask_selects_manifests() {
    let make = || vec![vec![entry_named("m0")], vec![entry_named("m1a"), entry_named("m1b")], vec![entry_named("m2")]];
    let mut contents = make();
    let mut stream = DataFileStream::new(3, Some(vec![false, true, false]));
    let files: Vec<String> = drain(&mut stream, &mut contents).iter().map(|e| e.file_path().to_string()).collect();
    assert_eq!(files, vec!["m0", "m2"]);

    let mut contents = make();
    let mut stream = DataFileStream::new(3, Some(vec![true, false, true]));
    let files: Vec<String> = drain(&mut stream, &mut contents).iter().map(|e| e.file_path().to_string()).collect();
    assert_eq!(files, vec!["m1a", "m1b"]);

    let mut contents = make();
    let mut stream = DataFileStream::new(3, Some(vec![true]));
    let files: Vec<String> = drain(&mut stream, &mut contents).iter().map(|e| e.file_path().to_string()).collect();
    assert_eq!(files, vec!["m1a", "m1b", "m2"]);

    let mut contents = make();
    let mut stream = DataFileStream::new(3, Some(vec![false, false, false]));
    assert_eq!(drain(&mut stream, &mut contents).len(), 4);
}

#[test]
fn transaction_leaves_table_until_applied() {
    let mut table = new_table("test/t");
    let transaction = table.new_transaction();
    assert_eq!(table.metadata().last_sequence_number, 0);
    let _ = table.apply(transaction, 1).unwrap();
    assert_eq!(table.metadata().last_sequence_number, 1);
}

#[test]
fn failed_apply_leaves_table_unchanged() {
    let mut table = new_table("test/t");
    let before_snapshot = table.metadata().current_snapshot_id;
    let transaction = table
        .new_transaction()
        .fast_append(vec!["a.parquet".to_string()])
        .update_spec(99);
    assert!(matches!(table.apply(transaction, 1), Err(IcebergError::Validation(_))));
    assert_eq!(table.metadata().last_sequence_number, 0);
    assert_eq!(table.metadata().current_snapshot_id, before_snapshot);
    assert!(table.metadata().snapshots.is_none());
    let transaction = table.new_transaction().update_spec(1).update_schema(schema());
    assert!(table.apply(transaction, 1).is_ok());
    assert_eq!(table.metadata().schemas.len(), 2);
    assert_eq!(table.metadata().default_spec_id, 1);
}

#[test]
fn concurrent_commits_one_wins() {
    let mut pointer = MetadataPointer::new("loc/v1.metadata.json".to_string());
    let previous = pointer.location().to_string();
    assert!(pointer.update(&previous, "loc/v2-a.metadata.json".to_string()).is_ok());
    assert!(matches!(
        pointer.update(&previous, "loc/v2-b.metadata.json".to_string()),
        Err(IcebergError::Conflict(_))
    ));
    assert_eq!(pointer.location(), "loc/v2-a.metadata.json");
}

#[test]
fn filesystem_commit_steps() {
    let mut step = CommitStep::PutTemp;
    for event in [StoreEvent::Done, StoreEvent::Done, StoreEvent::Done, StoreEvent::Done] {
        assert!(!step.is_finished());
        step = step.next(event);
    }
    assert_eq!(step, CommitStep::Committed);
    assert!(step.outcome().is_ok());
    let lost = CommitStep::PutTemp.next(StoreEvent::Done).next(StoreEvent::AlreadyExists);
    assert_eq!(lost, CommitStep::Conflict);
    assert!(matches!(lost.outcome(), Err(IcebergError::Conflict(_))));
    let failed = CommitStep::PutTemp.next(StoreEvent::Failed);
    assert!(matches!(failed.outcome(), Err(IcebergError::Message(_))));
    assert_eq!(failed.next(StoreEvent::Done), CommitStep::Failed);
}

#[test]
fn latest_metadata_version() {
    let names = vec![
        "v0.metadata.json".to_string(),
        "v3.metadata.json".to_string(),
        "snap-1.avro".to_string(),
        "v2.metadata.json".to_string(),
    ];
    assert_eq!(latest_version(&names).unwrap(), 3);
    assert_eq!(latest_version(&vec![]).unwrap(), 0);
    let bad = vec!["v1.metadata.json".to_string(), "abc.metadata.json".to_string()];
    assert!(matches!(latest_version(&bad), Err(IcebergError::Format(_))));
    assert_eq!(parse_i64("-12"), Some(-12));
    assert_eq!(parse_i64("+7"), Some(7));
    assert_eq!(parse_i64("9223372036854775808"), None);
    assert_eq!(parse_i64("-9223372036854775808"), Some(i64::MIN));
}

#[test]
fn strip_prefix_of_object_store_paths() {
    assert_eq!(strip_prefix("s3://bucket/path/to/file"), "path/to/file");
    assert_eq!(strip_prefix("s3a://my_bucket/x"), "x");
    assert_eq!(strip_prefix("gs://b1/y/z"), "y/z");
    assert_eq!(strip_prefix("/local/path"), "/local/path");
    assert_eq!(strip_prefix("s3://my-bucket/x"), "s3://my-bucket/x");
}

#[test]
fn strip_prefix_unicode_bucket() {
    assert_eq!(strip_prefix("s3://bücket/x"), "x");
}
