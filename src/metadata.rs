//! Table metadata: the versioned aggregate of schemas, partition specs,
//! snapshots and references, with the upgrade from version 1 to version 2.

use vstd::prelude::*;
use std::collections::HashMap;
use vstd::string::*;
use crate::error::IcebergError;
use crate::ids::{parse_uuid, uuid_from_text};
use crate::partition::{PartitionField, PartitionSpec, SortOrder};
use crate::schema::{schema_from_v1, v1_schema_id, SchemaV1, SchemaV2};
use crate::snapshot::{
    lemma_snapshot_upgrade_deterministic, same_snapshot, snapshot_upgraded, Reference, SnapshotV1, SnapshotV2,
};

verus! {

/// An entry of the metadata log: an earlier metadata file.
#[derive(Debug, PartialEq, Eq, Clone)]
pub struct MetadataLog {
    /// The file.
    pub metadata_file: String,
    /// When it was written.
    pub timestamp_ms: i64,
}

/// An entry of the snapshot log: when a snapshot became current.
#[derive(Debug, PartialEq, Eq, Clone, Copy, Structural)]
pub struct SnapshotLog {
    /// Id of the snapshot.
    pub snapshot_id: i64,
    /// When it became current.
    pub timestamp_ms: i64,
}

/// Table metadata, version 2: the form every table is held in.
#[derive(Debug, PartialEq, Eq)]
pub struct MetadataV2 {
    /// The UUID of the table.
    pub table_uuid: u128,
    /// Base location of the table.
    pub location: String,
    /// Highest sequence number of the table.
    pub last_sequence_number: i64,
    /// Last update, in milliseconds from the epoch.
    pub last_updated_ms: i64,
    /// Highest assigned column id.
    pub last_column_id: i32,
    /// The schemas.
    pub schemas: Vec<SchemaV2>,
    /// Id of the current schema.
    pub current_schema_id: i32,
    /// The partition specs.
    pub partition_specs: Vec<PartitionSpec>,
    /// Id of the default partition spec.
    pub default_spec_id: i32,
    /// Highest assigned partition field id.
    pub last_partition_id: i32,
    /// Table properties, by key.
    pub properties: Option<HashMap<String, String>>,
    /// Id of the current snapshot.
    pub current_snapshot_id: Option<i64>,
    /// The valid snapshots.
    pub snapshots: Option<Vec<SnapshotV2>>,
    /// Changes of the current snapshot.
    pub snapshot_log: Option<Vec<SnapshotLog>>,
    /// Earlier metadata files.
    pub metadata_log: Option<Vec<MetadataLog>>,
    /// The sort orders.
    pub sort_orders: Vec<SortOrder>,
    /// Id of the default sort order.
    pub default_sort_order_id: i64,
    /// Named references to snapshots, by name.
    pub refs: Option<HashMap<String, Reference>>,
}

/// Table metadata, version 1.
#[derive(Debug, PartialEq, Eq)]
pub struct MetadataV1 {
    /// The UUID of the table, if recorded.
    pub table_uuid: Option<u128>,
    /// Base location of the table.
    pub location: String,
    /// Last update, in milliseconds from the epoch.
    pub last_updated_ms: i64,
    /// Highest assigned column id.
    pub last_column_id: i32,
    /// The current schema.
    pub schema: SchemaV1,
    /// The schemas, if listed.
    pub schemas: Option<Vec<SchemaV1>>,
    /// Id of the current schema, if recorded.
    pub current_schema_id: Option<i32>,
    /// The fields of the current partition spec.
    pub partition_spec: Vec<PartitionField>,
    /// The partition specs, if listed.
    pub partition_specs: Option<Vec<PartitionSpec>>,
    /// Id of the default partition spec, if recorded.
    pub default_spec_id: Option<i32>,
    /// Highest assigned partition field id, if recorded.
    pub last_partition_id: Option<i32>,
    /// Table properties, by key.
    pub properties: Option<HashMap<String, String>>,
    /// Id of the current snapshot.
    pub current_snapshot_id: Option<i64>,
    /// The valid snapshots.
    pub snapshots: Option<Vec<SnapshotV1>>,
    /// Changes of the current snapshot.
    pub snapshot_log: Option<Vec<SnapshotLog>>,
    /// Earlier metadata files.
    pub metadata_log: Option<Vec<MetadataLog>>,
    /// The sort orders.
    pub sort_orders: Vec<SortOrder>,
    /// Id of the default sort order.
    pub default_sort_order_id: i64,
}

/// The largest field id of `fields`, and 0 when none is larger.
pub open spec fn max_field_id(fields: Seq<PartitionField>) -> i32
    decreases fields.len(),
{
    if fields.len() == 0 {
        0
    } else {
        let m = max_field_id(fields.drop_last());
        if fields.last().field_id > m { fields.last().field_id } else { m }
    }
}

/// The current schema id that a version 1 document takes in version 2.
pub open spec fn derived_current_schema_id(v1: MetadataV1) -> i32 {
    match v1.current_schema_id {
        Some(id) => id,
        None => v1_schema_id(v1.schema),
    }
}

/// The default spec id that a version 1 document takes in version 2.
pub open spec fn derived_default_spec_id(v1: MetadataV1) -> i32 {
    match v1.default_spec_id {
        Some(id) => id,
        None => 0,
    }
}

/// The last partition id that a version 1 document takes in version 2.
pub open spec fn derived_last_partition_id(v1: MetadataV1) -> i32 {
    match v1.last_partition_id {
        Some(id) => id,
        None => max_field_id(v1.partition_spec@),
    }
}

/// The version 1 document with each derivable default written out.
pub open spec fn v1_with_defaults(v1: MetadataV1) -> MetadataV1 {
    MetadataV1 {
        current_schema_id: Some(derived_current_schema_id(v1)),
        default_spec_id: Some(derived_default_spec_id(v1)),
        last_partition_id: Some(derived_last_partition_id(v1)),
        ..v1
    }
}

/// Writing out the defaults of a version 1 document changes none of the
/// values derived from it, and writing them out a second time changes nothing.
pub proof fn lemma_upgrade_defaults_idempotent(v1: MetadataV1)
    ensures
        derived_current_schema_id(v1_with_defaults(v1)) == derived_current_schema_id(v1),
        derived_default_spec_id(v1_with_defaults(v1)) == derived_default_spec_id(v1),
        derived_last_partition_id(v1_with_defaults(v1)) == derived_last_partition_id(v1),
        v1_with_defaults(v1_with_defaults(v1)) == v1_with_defaults(v1),
{
}

/// Whether `m` is the version 2 form of `v1`, with `generated_uuid` as the
/// table UUID where `v1` records none.
pub open spec fn upgraded_from(m: MetadataV2, v1: MetadataV1, generated_uuid: u128) -> bool {
    &&& m.table_uuid == (match v1.table_uuid {
        Some(u) => u,
        None => generated_uuid,
    })
    &&& m.location == v1.location
    &&& m.last_sequence_number == 0
    &&& m.last_updated_ms == v1.last_updated_ms
    &&& m.last_column_id == v1.last_column_id
    &&& m.current_schema_id == derived_current_schema_id(v1)
    &&& m.default_spec_id == derived_default_spec_id(v1)
    &&& m.last_partition_id == derived_last_partition_id(v1)
    &&& m.schemas@ == (match v1.schemas {
        Some(s) => s@.map_values(|x: SchemaV1| schema_from_v1(x)),
        None => seq![schema_from_v1(v1.schema)],
    })
    &&& m.partition_specs@ == (match v1.partition_specs {
        Some(p) => p@,
        None => seq![PartitionSpec { spec_id: 0, fields: v1.partition_spec }],
    })
    &&& m.properties == v1.properties
    &&& m.current_snapshot_id == v1.current_snapshot_id
    &&& (match v1.snapshots {
        Some(s) => m.snapshots is Some && m.snapshots->Some_0@.len() == s@.len()
            && forall|i: int| 0 <= i < s@.len() ==> snapshot_upgraded(#[trigger] m.snapshots->Some_0@[i], s@[i]),
        None => m.snapshots is None,
    })
    &&& m.snapshot_log == v1.snapshot_log
    &&& m.metadata_log == v1.metadata_log
    &&& m.sort_orders == v1.sort_orders
    &&& m.default_sort_order_id == v1.default_sort_order_id
    &&& m.refs is None
}

/// Whether two metadata values hold the same values: equal fields, with the
/// lists compared by content and snapshots by `same_snapshot`.
pub open spec fn metadata_same(a: MetadataV2, b: MetadataV2) -> bool {
    &&& a.table_uuid == b.table_uuid
    &&& a.location == b.location
    &&& a.last_sequence_number == b.last_sequence_number
    &&& a.last_updated_ms == b.last_updated_ms
    &&& a.last_column_id == b.last_column_id
    &&& a.schemas@ == b.schemas@
    &&& a.current_schema_id == b.current_schema_id
    &&& a.partition_specs@ == b.partition_specs@
    &&& a.default_spec_id == b.default_spec_id
    &&& a.last_partition_id == b.last_partition_id
    &&& a.properties == b.properties
    &&& a.current_snapshot_id == b.current_snapshot_id
    &&& (a.snapshots is None <==> b.snapshots is None)
    &&& (a.snapshots is Some ==> a.snapshots->Some_0@.len() == b.snapshots->Some_0@.len()
        && forall|i: int| 0 <= i < a.snapshots->Some_0@.len() ==>
            same_snapshot(#[trigger] a.snapshots->Some_0@[i], b.snapshots->Some_0@[i]))
    &&& a.snapshot_log == b.snapshot_log
    &&& a.metadata_log == b.metadata_log
    &&& a.sort_orders == b.sort_orders
    &&& a.default_sort_order_id == b.default_sort_order_id
    &&& a.refs == b.refs
}

/// The upgrade is a function of the document: two upgrades of one version 1
/// document, with the same UUID for a document that records none, hold the
/// same values.
pub proof fn lemma_upgrade_deterministic(a: MetadataV2, b: MetadataV2, v1: MetadataV1, generated_uuid: u128)
    requires
        upgraded_from(a, v1, generated_uuid),
        upgraded_from(b, v1, generated_uuid),
    ensures
        metadata_same(a, b),
{
    if v1.snapshots is Some {
        let s = v1.snapshots->Some_0@;
        assert forall|i: int| 0 <= i < a.snapshots->Some_0@.len() implies
            same_snapshot(#[trigger] a.snapshots->Some_0@[i], b.snapshots->Some_0@[i]) by {
            lemma_snapshot_upgrade_deterministic(a.snapshots->Some_0@[i], b.snapshots->Some_0@[i], s[i]);
        }
    }
}

/// Upgrading a version 1 document, and upgrading it after its derivable
/// defaults are written out, give the same version 2 values.
pub proof fn lemma_upgrade_with_defaults_same(a: MetadataV2, b: MetadataV2, v1: MetadataV1, generated_uuid: u128)
    requires
        upgraded_from(a, v1, generated_uuid),
        upgraded_from(b, v1_with_defaults(v1), generated_uuid),
    ensures
        metadata_same(a, b),
{
    lemma_upgrade_defaults_idempotent(v1);
    if v1.snapshots is Some {
        let s = v1.snapshots->Some_0@;
        assert forall|i: int| 0 <= i < a.snapshots->Some_0@.len() implies
            same_snapshot(#[trigger] a.snapshots->Some_0@[i], b.snapshots->Some_0@[i]) by {
            lemma_snapshot_upgrade_deterministic(a.snapshots->Some_0@[i], b.snapshots->Some_0@[i], s[i]);
        }
    }
}

fn max_partition_field_id(fields: &Vec<PartitionField>) -> (r: i32)
    ensures
        r == max_field_id(fields@),
{
    let mut m: i32 = 0;
    let mut i: usize = 0;
    while i < fields.len()
        invariant
            i <= fields@.len(),
            m == max_field_id(fields@.subrange(0, i as int)),
        decreases fields@.len() - i,
    {
        assert(fields@.subrange(0, i + 1).drop_last() =~= fields@.subrange(0, i as int));
        if fields[i].field_id > m {
            m = fields[i].field_id;
        }
        i = i + 1;
    }
    assert(fields@.subrange(0, fields@.len() as int) =~= fields@);
    m
}

fn upgrade_schemas(schemas: Vec<SchemaV1>) -> (r: Vec<SchemaV2>)
    ensures
        r@ == schemas@.map_values(|x: SchemaV1| schema_from_v1(x)),
{
    let mut r: Vec<SchemaV2> = Vec::new();
    let mut rest = schemas;
    let ghost orig = rest@;
    let mut rev: Vec<SchemaV1> = Vec::new();
    while rest.len() > 0
        invariant
            rev@.len() + rest@.len() == orig.len(),
            rest@ == orig.subrange(0, rest@.len() as int),
            forall|k: int| 0 <= k < rev@.len() ==> #[trigger] rev@[k] == orig[orig.len() - 1 - k],
        decreases rest@.len(),
    {
        let s = rest.pop().unwrap();
        rev.push(s);
    }
    while rev.len() > 0
        invariant
            r@.len() + rev@.len() == orig.len(),
            forall|k: int| 0 <= k < rev@.len() ==> #[trigger] rev@[k] == orig[orig.len() - 1 - k],
            forall|i: int| 0 <= i < r@.len() ==> #[trigger] r@[i] == schema_from_v1(orig[i]),
        decreases rev@.len(),
    {
        let s = rev.pop().unwrap();
        r.push(SchemaV2::from_v1(s));
    }
    assert(r@ =~= orig.map_values(|x: SchemaV1| schema_from_v1(x)));
    r
}

fn upgrade_snapshots(snapshots: Vec<SnapshotV1>) -> (r: Vec<SnapshotV2>)
    ensures
        r@.len() == snapshots@.len(),
        forall|i: int| 0 <= i < snapshots@.len() ==> snapshot_upgraded(#[trigger] r@[i], snapshots@[i]),
{
    let mut r: Vec<SnapshotV2> = Vec::new();
    let mut rest = snapshots;
    let ghost orig = rest@;
    let mut rev: Vec<SnapshotV1> = Vec::new();
    while rest.len() > 0
        invariant
            rev@.len() + rest@.len() == orig.len(),
            rest@ == orig.subrange(0, rest@.len() as int),
            forall|k: int| 0 <= k < rev@.len() ==> #[trigger] rev@[k] == orig[orig.len() - 1 - k],
        decreases rest@.len(),
    {
        let s = rest.pop().unwrap();
        rev.push(s);
    }
    while rev.len() > 0
        invariant
            r@.len() + rev@.len() == orig.len(),
            forall|k: int| 0 <= k < rev@.len() ==> #[trigger] rev@[k] == orig[orig.len() - 1 - k],
            forall|i: int| 0 <= i < r@.len() ==> snapshot_upgraded(#[trigger] r@[i], orig[i]),
        decreases rev@.len(),
    {
        let s = rev.pop().unwrap();
        r.push(SnapshotV2::from_v1(s));
    }
    r
}

impl MetadataV1 {
    /// The document with each derivable default written out.
    pub fn with_defaults(self) -> (r: MetadataV1)
        ensures
            r == v1_with_defaults(self),
    {
        let current_schema_id = match self.current_schema_id {
            Some(id) => id,
            None => match self.schema.schema_id {
                Some(id) => id,
                None => 0,
            },
        };
        let default_spec_id = match self.default_spec_id {
            Some(id) => id,
            None => 0,
        };
        let last_partition_id = match self.last_partition_id {
            Some(id) => id,
            None => max_partition_field_id(&self.partition_spec),
        };
        MetadataV1 {
            current_schema_id: Some(current_schema_id),
            default_spec_id: Some(default_spec_id),
            last_partition_id: Some(last_partition_id),
            ..self
        }
    }
}

/// Whether `id` is the id of a schema of `m`.
pub open spec fn has_schema(m: MetadataV2, id: i32) -> bool {
    exists|i: int| 0 <= i < m.schemas@.len() && (#[trigger] m.schemas@[i]).schema_id == id
}

/// Whether `id` is the id of a partition spec of `m`.
pub open spec fn has_spec(m: MetadataV2, id: i32) -> bool {
    exists|i: int| 0 <= i < m.partition_specs@.len() && (#[trigger] m.partition_specs@[i]).spec_id == id
}

/// Whether the sequence numbers of the snapshots of `m` never decrease along
/// the list and none exceeds the table's last sequence number.
pub open spec fn sequence_ordered(m: MetadataV2) -> bool {
    match m.snapshots {
        Some(s) => {
            &&& forall|i: int, j: int| 0 <= i < j < s@.len() ==>
                #[trigger] s@[i].sequence_number <= #[trigger] s@[j].sequence_number
            &&& forall|i: int| 0 <= i < s@.len() ==> #[trigger] s@[i].sequence_number <= m.last_sequence_number
        },
        None => true,
    }
}

/// Whether the current schema and the default spec of `m` resolve.
pub open spec fn metadata_wf(m: MetadataV2) -> bool {
    has_schema(m, m.current_schema_id) && has_spec(m, m.default_spec_id)
}

impl MetadataV2 {
    /// The version 2 form of a version 1 document. `generated_uuid` becomes the
    /// table UUID where the document records none.
    pub fn from_v1(v1: MetadataV1, generated_uuid: u128) -> (r: MetadataV2)
        ensures
            upgraded_from(r, v1, generated_uuid),
            sequence_ordered(r),
    {
        let ghost v = v1;
        let v1 = v1.with_defaults();
        let schemas = match v1.schemas {
            Some(s) => upgrade_schemas(s),
            None => {
                let mut s = Vec::new();
                s.push(v1.schema);
                let r = upgrade_schemas(s);
                assert(r@ =~= seq![schema_from_v1(v1.schema)]);
                r
            },
        };
        let partition_specs = match v1.partition_specs {
            Some(p) => p,
            None => {
                let mut p = Vec::new();
                p.push(PartitionSpec { spec_id: 0, fields: v1.partition_spec });
                assert(p@ =~= seq![PartitionSpec { spec_id: 0, fields: v1.partition_spec }]);
                p
            },
        };
        MetadataV2 {
            table_uuid: match v1.table_uuid {
                Some(u) => u,
                None => generated_uuid,
            },
            location: v1.location,
            last_sequence_number: 0,
            last_updated_ms: v1.last_updated_ms,
            last_column_id: v1.last_column_id,
            schemas,
            current_schema_id: v1.current_schema_id.unwrap(),
            partition_specs,
            default_spec_id: v1.default_spec_id.unwrap(),
            last_partition_id: v1.last_partition_id.unwrap(),
            properties: v1.properties,
            current_snapshot_id: v1.current_snapshot_id,
            snapshots: match v1.snapshots {
                Some(s) => Some(upgrade_snapshots(s)),
                None => None,
            },
            snapshot_log: v1.snapshot_log,
            metadata_log: v1.metadata_log,
            sort_orders: v1.sort_orders,
            default_sort_order_id: v1.default_sort_order_id,
            refs: None,
        }
    }

    /// The current schema: the first schema whose id is the current schema id.
    pub fn current_schema(&self) -> (r: &SchemaV2)
        requires
            has_schema(*self, self.current_schema_id),
        ensures
            exists|i: int| 0 <= i < self.schemas@.len() && *r == self.schemas@[i]
                && r.schema_id == self.current_schema_id
                && forall|k: int| 0 <= k < i ==> (#[trigger] self.schemas@[k]).schema_id != self.current_schema_id,
    {
        let mut i: usize = 0;
        while i < self.schemas.len()
            invariant
                i <= self.schemas@.len(),
                has_schema(*self, self.current_schema_id),
                forall|k: int| 0 <= k < i ==> (#[trigger] self.schemas@[k]).schema_id != self.current_schema_id,
            decreases self.schemas@.len() - i,
        {
            if self.schemas[i].schema_id == self.current_schema_id {
                return &self.schemas[i];
            }
            i = i + 1;
        }
        proof {
            let j = choose|j: int| 0 <= j < self.schemas@.len() && (#[trigger] self.schemas@[j]).schema_id == self.current_schema_id;
            assert(self.schemas@[j].schema_id != self.current_schema_id);
        }
        &self.schemas[0]
    }

    /// The default partition spec: the first spec whose id is the default spec id.
    pub fn default_spec(&self) -> (r: &PartitionSpec)
        requires
            has_spec(*self, self.default_spec_id),
        ensures
            exists|i: int| 0 <= i < self.partition_specs@.len() && *r == self.partition_specs@[i]
                && r.spec_id == self.default_spec_id
                && forall|k: int| 0 <= k < i ==> (#[trigger] self.partition_specs@[k]).spec_id != self.default_spec_id,
    {
        let mut i: usize = 0;
        while i < self.partition_specs.len()
            invariant
                i <= self.partition_specs@.len(),
                has_spec(*self, self.default_spec_id),
                forall|k: int| 0 <= k < i ==> (#[trigger] self.partition_specs@[k]).spec_id != self.default_spec_id,
            decreases self.partition_specs@.len() - i,
        {
            if self.partition_specs[i].spec_id == self.default_spec_id {
                return &self.partition_specs[i];
            }
            i = i + 1;
        }
        proof {
            let j = choose|j: int| 0 <= j < self.partition_specs@.len() && (#[trigger] self.partition_specs@[j]).spec_id == self.default_spec_id;
            assert(self.partition_specs@[j].spec_id != self.default_spec_id);
        }
        &self.partition_specs[0]
    }

    /// The current snapshot: the first snapshot whose id is the current
    /// snapshot id, or `None` when there is no current snapshot or no such snapshot.
    pub fn current_snapshot(&self) -> (r: Option<&SnapshotV2>)
        ensures
            r is Some <==> (self.current_snapshot_id is Some && self.snapshots is Some
                && exists|i: int| 0 <= i < self.snapshots->Some_0@.len()
                    && (#[trigger] self.snapshots->Some_0@[i]).snapshot_id == self.current_snapshot_id->Some_0),
            r is Some ==> exists|i: int| 0 <= i < self.snapshots->Some_0@.len()
                && *r->Some_0 == self.snapshots->Some_0@[i]
                && r->Some_0.snapshot_id == self.current_snapshot_id->Some_0
                && forall|k: int| 0 <= k < i ==>
                    (#[trigger] self.snapshots->Some_0@[k]).snapshot_id != self.current_snapshot_id->Some_0,
    {
        match (self.current_snapshot_id, &self.snapshots) {
            (Some(id), Some(snapshots)) => {
                let mut i: usize = 0;
                while i < snapshots.len()
                    invariant
                        i <= snapshots@.len(),
                        self.snapshots->Some_0@ == snapshots@,
                        self.snapshots is Some,
                        self.current_snapshot_id == Some(id),
                        forall|k: int| 0 <= k < i ==> (#[trigger] snapshots@[k]).snapshot_id != id,
                    decreases snapshots@.len() - i,
                {
                    if snapshots[i].snapshot_id == id {
                        assert(self.snapshots->Some_0@[i as int].snapshot_id == id);
                        return Some(&snapshots[i]);
                    }
                    i = i + 1;
                }
                None
            },
            _ => None,
        }
    }
}

/// A table metadata document of either format version.
#[derive(Debug, PartialEq, Eq)]
pub enum TableMetadata {
    /// Version 1.
    V1(MetadataV1),
    /// Version 2.
    V2(MetadataV2),
}

impl TableMetadata {
    /// The format version of the document.
    pub fn format_version(&self) -> (r: u8)
        ensures
            r == (match self {
                TableMetadata::V1(_) => 1u8,
                TableMetadata::V2(_) => 2u8,
            }),
    {
        match self {
            TableMetadata::V1(_) => 1,
            TableMetadata::V2(_) => 2,
        }
    }

    /// The document in version 2 form; `generated_uuid` becomes the table UUID
    /// of a version 1 document that records none.
    pub fn to_latest(self, generated_uuid: u128) -> (r: MetadataV2)
        ensures
            match self {
                TableMetadata::V1(v1) => upgraded_from(r, v1, generated_uuid),
                TableMetadata::V2(v2) => r == v2,
            },
    {
        match self {
            TableMetadata::V1(v1) => MetadataV2::from_v1(v1, generated_uuid),
            TableMetadata::V2(v2) => v2,
        }
    }
}

/// Check the `format-version` tag of a document: 1 and 2 are supported; an
/// absent or other version is a format error.
pub fn check_format_version(version: Option<i64>) -> (r: Result<u8, IcebergError>)
    ensures
        r is Ok <==> (version == Some(1i64) || version == Some(2i64)),
        r is Ok ==> r->Ok_0 as i64 == version->Some_0,
        r is Err ==> r->Err_0 is Format,
{
    match version {
        Some(1) => Ok(1),
        Some(2) => Ok(2),
        Some(_) => Err(IcebergError::Format(String::from_str("Unsupported format version"))),
        None => Err(IcebergError::Format(String::from_str("Missing format version"))),
    }
}

/// Read the table UUID of a document; text that is no UUID is a format error.
pub fn parse_table_uuid(s: &str) -> (r: Result<u128, IcebergError>)
    ensures
        r is Ok <==> uuid_from_text(s@) is Some,
        r is Ok ==> r->Ok_0 == uuid_from_text(s@)->Some_0,
        r is Err ==> r->Err_0 is Format,
{
    match parse_uuid(s) {
        Some(u) => Ok(u),
        None => Err(IcebergError::Format(String::from_str("Invalid table uuid"))),
    }
}

} // verus!
