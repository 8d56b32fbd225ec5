use iceberg_rs::manifest::{DataFile, ManifestEntry, ManifestFile, PartitionStruct};
use iceberg_rs::schema::{AllType, List, SchemaStruct};
use iceberg_rs::table::{temp_metadata_path, versioned_metadata_path};
use iceberg_rs::types::PrimitiveType;

#[test]
fn entry_schema_is_valid_avro() {
    let text = ManifestEntry::schema(&PartitionStruct::write_schema("ts_day"));
    let json: serde_json::Value = serde_json::from_str(&text).unwrap();
    assert_eq!(json["name"], "manifest_entry");
    assert!(apache_avro::Schema::parse_str(&text).is_ok());
    assert!(text.contains("\"name\": \"ts_day\""));
}

#[test]
fn data_file_schema_holds_partition() {
    let partition = PartitionStruct::write_schema("p");
    let text = DataFile::schema(&partition);
    let json: serde_json::Value = serde_json::from_str(&text).unwrap();
    let fields = json["fields"].as_array().unwrap();
    let part = fields.iter().find(|f| f["name"] == "partition").unwrap();
    assert_eq!(part["field_id"], 102);
    assert_eq!(part["type"]["fields"][0]["name"], "p");
}

#[test]
fn manifest_list_schema_is_valid_avro() {
    let text = ManifestFile::schema();
    assert!(apache_avro::Schema::parse_str(&text).is_ok());
    let json: serde_json::Value = serde_json::from_str(&text).unwrap();
    assert_eq!(json["fields"][0]["name"], "manifest_path");
}

#[test]
fn uuid_paths() {
    let u = 0xfb072c92_a02b_11e9_ae9c_1bb7bc9eca94u128;
    assert_eq!(
        versioned_metadata_path("loc", 3, u),
        "loc/metadata/3-fb072c92-a02b-11e9-ae9c-1bb7bc9eca94.metadata.json"
    );
    assert_eq!(temp_metadata_path("loc", u), "loc/metadata/fb072c92-a02b-11e9-ae9c-1bb7bc9eca94.metadata.json");
}

#[test]
fn type_names() {
    assert_eq!(AllType::Primitive(PrimitiveType::Long).to_string(), "long");
    assert_eq!(AllType::Struct(SchemaStruct { fields: vec![] }).to_string(), "struct");
    let list = AllType::List(List {
        element_id: 1,
        element_required: true,
        element: Box::new(AllType::Primitive(PrimitiveType::Int)),
    });
    assert_eq!(list.to_string(), "list");
}
