//! Schemas: named, typed columns with table-wide unique field ids.

use vstd::prelude::*;
use vstd::string::*;
use crate::types::{simple_type_text, PrimitiveType};

verus! {

/// The type of a field: a primitive or a nested type.
#[derive(Debug, PartialEq, Eq)]
pub enum AllType {
    /// A primitive type.
    Primitive(PrimitiveType),
    /// A struct type.
    Struct(SchemaStruct),
    /// A list type.
    List(List),
    /// A map type.
    MapType(MapType),
}

/// The name of a type: the primitive's name, or `struct`, `list`, `map`.
pub open spec fn kind_text(t: AllType) -> Seq<char> {
    match t {
        AllType::Primitive(p) => simple_type_text(p),
        AllType::Struct(_) => "struct"@,
        AllType::List(_) => "list"@,
        AllType::MapType(_) => "map"@,
    }
}

impl AllType {
    /// The name of the type.
    pub fn to_string(&self) -> (r: String)
        ensures
            r@ == kind_text(*self),
    {
        match self {
            AllType::Primitive(p) => p.to_string(),
            AllType::Struct(_) => String::from_str("struct"),
            AllType::List(_) => String::from_str("list"),
            AllType::MapType(_) => String::from_str("map"),
        }
    }
}

/// A tuple of named, typed fields.
#[derive(Debug, PartialEq, Eq)]
pub struct SchemaStruct {
    /// The fields of the struct.
    pub fields: Vec<StructField>,
}

impl SchemaStruct {
    /// The first field whose id is `index`, if any.
    pub fn get(&self, index: usize) -> (r: Option<&StructField>)
        ensures
            r is None <==> forall|k: int| 0 <= k < self.fields@.len() ==>
                (#[trigger] self.fields@[k]).id as usize != index,
            r is Some ==> exists|i: int| 0 <= i < self.fields@.len()
                && *r->Some_0 == self.fields@[i]
                && self.fields@[i].id as usize == index
                && forall|k: int| 0 <= k < i ==> (#[trigger] self.fields@[k]).id as usize != index,
    {
        let mut i: usize = 0;
        while i < self.fields.len()
            invariant
                i <= self.fields@.len(),
                forall|k: int| 0 <= k < i ==> (#[trigger] self.fields@[k]).id as usize != index,
            decreases self.fields@.len() - i,
        {
            if self.fields[i].id as usize == index {
                return Some(&self.fields[i]);
            }
            i = i + 1;
        }
        None
    }
}

/// A named field of a struct.
#[derive(Debug, PartialEq, Eq)]
pub struct StructField {
    /// Unique id.
    pub id: i32,
    /// Field name.
    pub name: String,
    /// Whether values are required (not null).
    pub required: bool,
    /// The type of the field.
    pub field_type: AllType,
    /// Optional documentation.
    pub doc: Option<String>,
}

/// A list type.
#[derive(Debug, PartialEq, Eq)]
pub struct List {
    /// Id of the element field.
    pub element_id: i32,
    /// Whether elements are required.
    pub element_required: bool,
    /// The element type.
    pub element: Box<AllType>,
}

/// A map type.
#[derive(Debug, PartialEq, Eq)]
pub struct MapType {
    /// Id of the key field.
    pub key_id: i32,
    /// The key type.
    pub key: Box<AllType>,
    /// Id of the value field.
    pub value_id: i32,
    /// Whether values are required.
    pub value_required: bool,
    /// The value type.
    pub value: Box<AllType>,
}

/// Fallback field ids for data files that lack them.
#[derive(Debug, PartialEq, Eq)]
pub struct NameMappings {
    /// The default mappings.
    pub default: Vec<NameMapping>,
}

/// One mapping of names to a field id.
#[derive(Debug, PartialEq, Eq)]
pub struct NameMapping {
    /// The field id used when one of the names is present.
    pub field_id: Option<i32>,
    /// The names of the field.
    pub names: Vec<String>,
    /// Mappings of child fields.
    pub fields: Option<Vec<NameMapping>>,
}

/// Names and types of the fields of a table, version 2.
#[derive(Debug, PartialEq, Eq)]
pub struct SchemaV2 {
    /// Identifier of the schema.
    pub schema_id: i32,
    /// Fields that identify rows.
    pub identifier_field_ids: Option<Vec<i32>>,
    /// Name mapping.
    pub name_mapping: Option<NameMappings>,
    /// The struct fields.
    pub struct_fields: SchemaStruct,
}

/// Names and types of the fields of a table, version 1.
#[derive(Debug, PartialEq, Eq)]
pub struct SchemaV1 {
    /// Identifier of the schema, if any.
    pub schema_id: Option<i32>,
    /// Fields that identify rows.
    pub identifier_field_ids: Option<Vec<i32>>,
    /// Name mapping.
    pub name_mapping: Option<NameMappings>,
    /// The struct fields.
    pub struct_fields: SchemaStruct,
}

/// A schema of either version.
#[derive(Debug, PartialEq, Eq)]
pub enum Schema {
    /// Version 2.
    V2(SchemaV2),
    /// Version 1.
    V1(SchemaV1),
}

impl Schema {
    /// The struct fields of the schema.
    pub fn struct_fields(&self) -> (r: &SchemaStruct)
        ensures
            *r == match self {
                Schema::V2(s) => s.struct_fields,
                Schema::V1(s) => s.struct_fields,
            },
    {
        match self {
            Schema::V2(schema) => &schema.struct_fields,
            Schema::V1(schema) => &schema.struct_fields,
        }
    }
}

/// The schema id that a version 1 schema takes in version 2.
pub open spec fn v1_schema_id(s: SchemaV1) -> i32 {
    match s.schema_id {
        Some(id) => id,
        None => 0,
    }
}

/// The version 2 form of a version 1 schema: a missing id becomes 0.
pub open spec fn schema_from_v1(s: SchemaV1) -> SchemaV2 {
    SchemaV2 {
        schema_id: v1_schema_id(s),
        identifier_field_ids: s.identifier_field_ids,
        name_mapping: s.name_mapping,
        struct_fields: s.struct_fields,
    }
}

impl SchemaV2 {
    /// The version 2 form of a version 1 schema: a missing id becomes 0.
    pub fn from_v1(v1: SchemaV1) -> (r: SchemaV2)
        ensures
            r == schema_from_v1(v1),
    {
        SchemaV2 {
            schema_id: match v1.schema_id {
                Some(id) => id,
                None => 0,
            },
            identifier_field_ids: v1.identifier_field_ids,
            name_mapping: v1.name_mapping,
            struct_fields: v1.struct_fields,
        }
    }
}

} // verus!
