//! Tables and transactions: the working copy of a table's metadata, the
//! operations queued on it, the files an append writes, and where each
//! metadata file goes.

use vstd::prelude::*;
use std::collections::HashMap;
use vstd::string::*;
use crate::catalog::TableIdentifier;
use crate::error::IcebergError;
use crate::files::{mask_view, selected, DataFileStream};
use crate::ids::{format_uuid, random_i64, random_uuid, uuid_text};
use crate::manifest::{Content, DataFile, FileFormat, ManifestEntry, ManifestFile, PartitionStruct, Status};
use crate::metadata::{has_schema, has_spec, metadata_wf, sequence_ordered, MetadataV2};
use crate::partition::{NullOrder, PartitionField, PartitionSpec, SortDirection, SortField, SortOrder};
use crate::schema::{SchemaStruct, SchemaV2};
use crate::snapshot::{Operation as SnapshotOperation, SnapshotV2, Summary};
use crate::text::{i64_to_text, int_string};
use crate::types::Transform;

verus! {

/// The canonical metadata file of version `n` of a table at `location`.
pub open spec fn metadata_file_text(location: Seq<char>, n: int) -> Seq<char> {
    location + "/metadata/v"@ + int_string(n) + ".metadata.json"@
}

/// A metadata file of version `n` written under a fresh UUID.
pub open spec fn versioned_metadata_text(location: Seq<char>, n: int, u: u128) -> Seq<char> {
    location + "/metadata/"@ + int_string(n) + "-"@ + uuid_text(u) + ".metadata.json"@
}

/// The temporary name of a metadata file before it is copied to its canonical name.
pub open spec fn temp_metadata_text(location: Seq<char>, u: u128) -> Seq<char> {
    location + "/metadata/"@ + uuid_text(u) + ".metadata.json"@
}

/// The manifest list of snapshot `id`.
pub open spec fn manifest_list_text(location: Seq<char>, id: int, u: u128) -> Seq<char> {
    location + "/metadata/snap-"@ + int_string(id) + "-"@ + uuid_text(u) + ".avro"@
}

/// The first manifest written with the manifest list of snapshot `id`.
pub open spec fn manifest_text(location: Seq<char>, id: int, u: u128) -> Seq<char> {
    location + "/metadata/snap-"@ + int_string(id) + "-"@ + uuid_text(u) + "-m0.avro"@
}

/// The canonical metadata file of version `version` of the table at `location`.
pub fn metadata_file_path(location: &str, version: i64) -> (r: String)
    ensures
        r@ == metadata_file_text(location@, version as int),
{
    let mut r = String::from_str(location);
    r.append("/metadata/v");
    let v = i64_to_text(version);
    r.append(v.as_str());
    r.append(".metadata.json");
    r
}

/// A metadata file of version `version` under the UUID `u`.
pub fn versioned_metadata_path(location: &str, version: i64, u: u128) -> (r: String)
    ensures
        r@ == versioned_metadata_text(location@, version as int, u),
{
    let mut r = String::from_str(location);
    r.append("/metadata/");
    let v = i64_to_text(version);
    r.append(v.as_str());
    r.append("-");
    let t = format_uuid(u);
    r.append(t.as_str());
    r.append(".metadata.json");
    r
}

/// The temporary metadata file under the UUID `u`.
pub fn temp_metadata_path(location: &str, u: u128) -> (r: String)
    ensures
        r@ == temp_metadata_text(location@, u),
{
    let mut r = String::from_str(location);
    r.append("/metadata/");
    let t = format_uuid(u);
    r.append(t.as_str());
    r.append(".metadata.json");
    r
}

fn snapshot_file_path(location: &str, id: i64, u: u128, suffix: &str) -> (r: String)
    ensures
        r@ == location@ + "/metadata/snap-"@ + int_string(id as int) + "-"@ + uuid_text(u) + suffix@,
{
    let mut r = String::from_str(location);
    r.append("/metadata/snap-");
    let v = i64_to_text(id);
    r.append(v.as_str());
    r.append("-");
    let t = format_uuid(u);
    r.append(t.as_str());
    r.append(suffix);
    r
}

/// Where the metadata of a table is kept.
#[derive(Debug, Clone)]
pub enum TableKind {
    /// In a directory of an object store, under versioned names.
    FileSystem,
    /// In a catalog, under an identifier.
    Metastore(TableIdentifier),
}

/// An operation queued on a transaction.
#[derive(Debug)]
pub enum Operation {
    /// Add a schema and make it current.
    UpdateSchema(SchemaV2),
    /// Make an existing partition spec the default.
    UpdateSpec(i32),
    /// Append data files under a new snapshot.
    NewFastAppend(Vec<String>),
}

/// What an append writes: one manifest with its entries, and a manifest list
/// that holds the earlier manifests and then the summary of the new one.
#[derive(Debug)]
pub struct AppendPlan {
    /// Where the manifest goes.
    pub manifest_path: String,
    /// Where the manifest list goes.
    pub manifest_list_path: String,
    /// The entries of the manifest.
    pub entries: Vec<ManifestEntry>,
    /// The summary of the manifest for the manifest list.
    pub summary: ManifestFile,
}

/// Whether `e` is the entry that an append of `path` under snapshot `id`
/// with sequence number `seq` writes.
pub open spec fn appended_entry(e: ManifestEntry, path: Seq<char>, id: i64, seq: i64) -> bool {
    &&& e.status == Status::Added
    &&& e.snapshot_id == Some(id)
    &&& e.sequence_number == Some(seq)
    &&& e.data_file.file_path@ == path
    &&& e.data_file.file_format == FileFormat::Parquet
    &&& e.data_file.partition.partition_spec_name is None
    &&& e.data_file.content is None
}

/// The entries that an append of `paths` writes, one per path, in order.
pub fn fast_append_entries(paths: Vec<String>, snapshot_id: i64, sequence_number: i64) -> (r: Vec<ManifestEntry>)
    ensures
        r@.len() == paths@.len(),
        forall|i: int| 0 <= i < paths@.len() ==>
            appended_entry(#[trigger] r@[i], paths@[i]@, snapshot_id, sequence_number),
{
    let mut rest = paths;
    let ghost orig = rest@;
    let mut rev: Vec<String> = Vec::new();
    while rest.len() > 0
        invariant
            rev@.len() + rest@.len() == orig.len(),
            rest@ == orig.subrange(0, rest@.len() as int),
            forall|k: int| 0 <= k < rev@.len() ==> #[trigger] rev@[k] == orig[orig.len() - 1 - k],
        decreases rest@.len(),
    {
        let p = rest.pop().unwrap();
        rev.push(p);
    }
    let mut r: Vec<ManifestEntry> = Vec::new();
    while rev.len() > 0
        invariant
            r@.len() + rev@.len() == orig.len(),
            forall|k: int| 0 <= k < rev@.len() ==> #[trigger] rev@[k] == orig[orig.len() - 1 - k],
            forall|i: int| 0 <= i < r@.len() ==>
                appended_entry(#[trigger] r@[i], orig[i]@, snapshot_id, sequence_number),
        decreases rev@.len(),
    {
        let file_path = rev.pop().unwrap();
        r.push(ManifestEntry {
            status: Status::Added,
            snapshot_id: Some(snapshot_id),
            sequence_number: Some(sequence_number),
            data_file: DataFile {
                content: None,
                file_path,
                file_format: FileFormat::Parquet,
                partition: PartitionStruct { partition_spec_name: None },
                record_count: 0,
                file_size_in_bytes: 0,
                block_size_in_bytes: None,
                file_ordinal: None,
                sort_columns: None,
                column_sizes: None,
                value_counts: None,
                null_value_counts: None,
                nan_value_counts: None,
                distinct_counts: None,
                lower_bounds: None,
                upper_bounds: None,
                key_metadata: None,
                split_offsets: None,
                equality_ids: None,
                sort_order_id: None,
            },
        });
    }
    r
}

/// The manifest list after an append: the earlier manifests, then the new one.
pub fn manifest_list_after_append(previous: Vec<ManifestFile>, added: ManifestFile) -> (r: Vec<ManifestFile>)
    ensures
        r@ == previous@.push(added),
{
    let mut r = previous;
    r.push(added);
    r
}

/// Whether `after` is `before` with one more snapshot, `id`, made current:
/// its parent is the snapshot current before, its sequence number the
/// table's last, its schema the current one; nothing else changes.
pub open spec fn snapshot_added(before: MetadataV2, after: MetadataV2, id: i64, list: Seq<char>, timestamp_ms: i64) -> bool {
    let old_snaps = match before.snapshots {
        Some(s) => s@,
        None => Seq::<SnapshotV2>::empty(),
    };
    let s = after.snapshots->Some_0@.last();
    &&& after.snapshots is Some
    &&& after.snapshots->Some_0@.len() == old_snaps.len() + 1
    &&& after.snapshots->Some_0@.drop_last() == old_snaps
    &&& s.snapshot_id == id
    &&& s.parent_snapshot_id == before.current_snapshot_id
    &&& s.sequence_number == before.last_sequence_number
    &&& s.timestamp_ms == timestamp_ms
    &&& s.manifest_list@ == list
    &&& s.summary.operation == Some(SnapshotOperation::Append)
    &&& s.summary.other@ == Map::<String, String>::empty()
    &&& s.schema_id == Some(before.current_schema_id as i64)
    &&& after == (MetadataV2 { snapshots: after.snapshots, current_snapshot_id: Some(id), ..before })
}

/// Whether an append of `paths` took `before` to `after` under snapshot `id`,
/// with its files named after `u`, and `plan` is what it writes.
pub open spec fn append_done(
    before: MetadataV2,
    after: MetadataV2,
    paths: Seq<String>,
    plan: AppendPlan,
    id: i64,
    u: u128,
    timestamp_ms: i64,
) -> bool {
    let loc = before.location@;
    let seq = before.last_sequence_number;
    &&& snapshot_added(before, after, id, manifest_list_text(loc, id as int, u), timestamp_ms)
    &&& plan.manifest_list_path@ == manifest_list_text(loc, id as int, u)
    &&& plan.manifest_path@ == manifest_text(loc, id as int, u)
    &&& plan.entries@.len() == paths.len()
    &&& forall|i: int| 0 <= i < paths.len() ==> appended_entry(#[trigger] plan.entries@[i], paths[i]@, id, seq)
    &&& plan.summary.manifest_path@ == plan.manifest_path@
    &&& plan.summary.added_snapshot_id == id
    &&& plan.summary.partition_spec_id == before.default_spec_id
    &&& plan.summary.sequence_number == Some(seq)
    &&& plan.summary.content == Some(Content::Data)
}

/// Whether a schema or spec update took `before` to `after`, succeeding
/// when `ok`: a schema update adds the schema and makes it current; a spec
/// update makes an existing spec the default, and fails, changing nothing,
/// when no spec has its id.
pub open spec fn update_done(op: Operation, before: MetadataV2, after: MetadataV2, ok: bool) -> bool {
    match op {
        Operation::UpdateSchema(s) => ok && after.schemas@ == before.schemas@.push(s)
            && after == (MetadataV2 { schemas: after.schemas, current_schema_id: s.schema_id, ..before }),
        Operation::UpdateSpec(id) => (ok <==> has_spec(before, id))
            && (ok ==> after == (MetadataV2 { default_spec_id: id, ..before }))
            && (!ok ==> after == before),
        Operation::NewFastAppend(_) => false,
    }
}

/// Whether `op` took `before` to `after`, with some snapshot id and file UUID
/// for an append.
pub open spec fn step(op: Operation, before: MetadataV2, after: MetadataV2, timestamp_ms: i64) -> bool {
    match op {
        Operation::NewFastAppend(paths) => exists|id: i64, u: u128, plan: AppendPlan|
            #[trigger] append_done(before, after, paths@, plan, id, u, timestamp_ms),
        _ => update_done(op, before, after, true),
    }
}

/// Whether `states` are the metadata before each operation and after the
/// last, each operation taking one state to the next as `step` says.
pub open spec fn steps_through(ops: Seq<Operation>, states: Seq<MetadataV2>, timestamp_ms: i64) -> bool {
    &&& states.len() == ops.len() + 1
    &&& forall|i: int| 0 <= i < ops.len() ==> #[trigger] step(ops[i], states[i], states[i + 1], timestamp_ms)
}

/// Whether the operations, applied in order, each as `step` says, take
/// `before` to `after`.
pub open spec fn applied(ops: Seq<Operation>, before: MetadataV2, after: MetadataV2, timestamp_ms: i64) -> bool {
    exists|states: Seq<MetadataV2>| #[trigger] steps_through(ops, states, timestamp_ms)
        && states[0] == before && states.last() == after
}

fn spec_resolves(m: &MetadataV2, id: i32) -> (r: bool)
    ensures
        r == has_spec(*m, id),
{
    let mut i: usize = 0;
    while i < m.partition_specs.len()
        invariant
            i <= m.partition_specs@.len(),
            forall|k: int| 0 <= k < i ==> (#[trigger] m.partition_specs@[k]).spec_id != id,
        decreases m.partition_specs@.len() - i,
    {
        if m.partition_specs[i].spec_id == id {
            assert(m.partition_specs@[i as int].spec_id == id);
            return true;
        }
        i = i + 1;
    }
    false
}

impl Operation {
    /// Apply the operation to a working copy of the metadata. An append makes
    /// snapshot `snapshot_id` current, with its files named after `file_uuid`,
    /// and returns what it writes.
    pub fn execute_with(
        self,
        metadata: &mut MetadataV2,
        snapshot_id: i64,
        file_uuid: u128,
        timestamp_ms: i64,
    ) -> (r: Result<Option<AppendPlan>, IcebergError>)
        ensures
            metadata_wf(*old(metadata)) ==> metadata_wf(*final(metadata)),
            sequence_ordered(*old(metadata)) ==> sequence_ordered(*final(metadata)),
            match self {
                Operation::NewFastAppend(paths) => r is Ok && r->Ok_0 is Some
                    && append_done(*old(metadata), *final(metadata), paths@, r->Ok_0->Some_0, snapshot_id, file_uuid, timestamp_ms),
                _ => update_done(self, *old(metadata), *final(metadata), r is Ok)
                    && (r is Ok ==> r->Ok_0 is None)
                    && (r is Err ==> r->Err_0 is Validation),
            },
    {
        match self {
            Operation::UpdateSchema(schema) => {
                let ghost before = *metadata;
                metadata.current_schema_id = schema.schema_id;
                metadata.schemas.push(schema);
                assert(metadata.schemas@[metadata.schemas@.len() - 1].schema_id == metadata.current_schema_id);
                proof {
                    if metadata_wf(before) {
                        let i = choose|i: int| 0 <= i < before.partition_specs@.len()
                            && (#[trigger] before.partition_specs@[i]).spec_id == before.default_spec_id;
                        assert(metadata.partition_specs@[i] == before.partition_specs@[i]);
                    }
                }
                Ok(None)
            },
            Operation::UpdateSpec(id) => {
                let mut i: usize = 0;
                while i < metadata.partition_specs.len()
                    invariant
                        i <= metadata.partition_specs@.len(),
                        *metadata == *old(metadata),
                        self == Operation::UpdateSpec(id),
                        forall|k: int| 0 <= k < i ==> (#[trigger] metadata.partition_specs@[k]).spec_id != id,
                    decreases metadata.partition_specs@.len() - i,
                {
                    if metadata.partition_specs[i].spec_id == id {
                        assert(old(metadata).partition_specs@[i as int].spec_id == id);
                        metadata.default_spec_id = id;
                        assert(metadata.partition_specs@[i as int].spec_id == metadata.default_spec_id);
                        return Ok(None);
                    }
                    i = i + 1;
                }
                Err(IcebergError::Validation(String::from_str("No partition spec with this id.")))
            },
            Operation::NewFastAppend(paths) => {
                let seq = metadata.last_sequence_number;
                let manifest_list_path = snapshot_file_path(metadata.location.as_str(), snapshot_id, file_uuid, ".avro");
                let manifest_path = snapshot_file_path(metadata.location.as_str(), snapshot_id, file_uuid, "-m0.avro");
                let summary_path = String::from_str(manifest_path.as_str());
                let count = paths.len();
                let snapshot = SnapshotV2 {
                    snapshot_id,
                    parent_snapshot_id: metadata.current_snapshot_id,
                    sequence_number: seq,
                    timestamp_ms,
                    manifest_list: String::from_str(manifest_list_path.as_str()),
                    summary: Summary { operation: Some(SnapshotOperation::Append), other: HashMap::new() },
                    schema_id: Some(metadata.current_schema_id as i64),
                };
                let ghost before = *metadata;
                let mut snapshots = match metadata.snapshots.take() {
                    Some(s) => s,
                    None => Vec::new(),
                };
                snapshots.push(snapshot);
                metadata.snapshots = Some(snapshots);
                metadata.current_snapshot_id = Some(snapshot_id);
                proof {
                    if metadata_wf(before) {
                        let i = choose|i: int| 0 <= i < before.partition_specs@.len()
                            && (#[trigger] before.partition_specs@[i]).spec_id == before.default_spec_id;
                        assert(metadata.partition_specs@[i] == before.partition_specs@[i]);
                        let j = choose|j: int| 0 <= j < before.schemas@.len()
                            && (#[trigger] before.schemas@[j]).schema_id == before.current_schema_id;
                        assert(metadata.schemas@[j] == before.schemas@[j]);
                    }
                    let old_snaps = match before.snapshots {
                        Some(s) => s@,
                        None => Seq::<SnapshotV2>::empty(),
                    };
                    let new_snaps = metadata.snapshots->Some_0@;
                    assert(new_snaps.drop_last() =~= old_snaps);
                    if sequence_ordered(before) {
                        assert forall|i: int, j: int| 0 <= i < j < new_snaps.len() implies
                            #[trigger] new_snaps[i].sequence_number <= #[trigger] new_snaps[j].sequence_number by {
                            assert(new_snaps[i] == old_snaps[i]);
                            if j < old_snaps.len() {
                                assert(new_snaps[j] == old_snaps[j]);
                            }
                        }
                        assert forall|i: int| 0 <= i < new_snaps.len() implies
                            #[trigger] new_snaps[i].sequence_number <= metadata.last_sequence_number by {
                            if i < old_snaps.len() {
                                assert(new_snaps[i] == old_snaps[i]);
                            }
                        }
                    }
                }
                let entries = fast_append_entries(paths, snapshot_id, seq);
                let summary = ManifestFile {
                    manifest_path: summary_path,
                    manifest_length: 0,
                    partition_spec_id: metadata.default_spec_id,
                    content: Some(Content::Data),
                    sequence_number: Some(seq),
                    min_sequence_number: Some(seq),
                    added_snapshot_id: snapshot_id,
                    added_files_count: Some(#[verifier::truncate] (count as i32)),
                    existing_files_count: Some(0),
                    deleted_files_count: Some(0),
                    added_rows_count: None,
                    existing_rows_count: None,
                    deleted_rows_count: None,
                    partitions: None,
                    key_metadata: None,
                };
                Ok(Some(AppendPlan { manifest_path, manifest_list_path, entries, summary }))
            },
        }
    }

    /// Apply the operation to a working copy of the metadata, drawing a random
    /// snapshot id and file UUID for an append. An append fails, changing
    /// nothing, when no random value can be drawn.
    pub fn execute(self, metadata: &mut MetadataV2, timestamp_ms: i64) -> (r: Result<Option<AppendPlan>, IcebergError>)
        ensures
            metadata_wf(*old(metadata)) ==> metadata_wf(*final(metadata)),
            sequence_ordered(*old(metadata)) ==> sequence_ordered(*final(metadata)),
            match self {
                Operation::NewFastAppend(paths) => (r is Ok ==> r->Ok_0 is Some
                    && exists|id: i64, u: u128|
                        #[trigger] append_done(*old(metadata), *final(metadata), paths@, r->Ok_0->Some_0, id, u, timestamp_ms))
                    && (r is Err ==> *final(metadata) == *old(metadata) && r->Err_0 is Message),
                _ => update_done(self, *old(metadata), *final(metadata), r is Ok)
                    && (r is Ok ==> r->Ok_0 is None)
                    && (r is Err ==> r->Err_0 is Validation),
            },
    {
        if matches!(self, Operation::NewFastAppend(_)) {
            let snapshot_id = match random_i64() {
                Some(id) => id,
                None => return Err(IcebergError::Message(String::from_str("No random source for a snapshot id."))),
            };
            let u = match random_uuid() {
                Some(u) => u,
                None => return Err(IcebergError::Message(String::from_str("No random source for a file name."))),
            };
            self.execute_with(metadata, snapshot_id, u, timestamp_ms)
        } else {
            self.execute_with(metadata, 0, 0, timestamp_ms)
        }
    }
}

/// A table: its current metadata, where that metadata is kept, and the
/// manifests of its current snapshot.
pub struct Table {
    kind: TableKind,
    metadata: MetadataV2,
    metadata_location: String,
    manifests: Vec<ManifestFile>,
}

/// A transaction: operations queued in call order, applied together on
/// commit, and the sequence number reserved for it.
pub struct Transaction {
    operations: Vec<Operation>,
    sequence_number: i64,
}

impl Transaction {
    /// An empty transaction holding the reserved sequence number.
    pub fn new(sequence_number: i64) -> (r: Transaction)
        ensures
            r.operations()@.len() == 0,
            r.sequence_number() == sequence_number,
    {
        Transaction { operations: Vec::new(), sequence_number }
    }

    /// The queued operations.
    pub closed spec fn operations(&self) -> Vec<Operation> {
        self.operations
    }

    /// The sequence number reserved for the transaction.
    pub closed spec fn sequence_number(&self) -> i64 {
        self.sequence_number
    }

    /// Queue a schema update.
    pub fn update_schema(self, schema: SchemaV2) -> (r: Transaction)
        ensures
            r.operations()@ == self.operations()@.push(Operation::UpdateSchema(schema)),
            r.sequence_number() == self.sequence_number(),
    {
        let mut operations = self.operations;
        operations.push(Operation::UpdateSchema(schema));
        Transaction { operations, sequence_number: self.sequence_number }
    }

    /// Queue a change of the default partition spec.
    pub fn update_spec(self, spec_id: i32) -> (r: Transaction)
        ensures
            r.operations()@ == self.operations()@.push(Operation::UpdateSpec(spec_id)),
            r.sequence_number() == self.sequence_number(),
    {
        let mut operations = self.operations;
        operations.push(Operation::UpdateSpec(spec_id));
        Transaction { operations, sequence_number: self.sequence_number }
    }

    /// Queue an append of data files.
    pub fn fast_append(self, paths: Vec<String>) -> (r: Transaction)
        ensures
            r.operations()@ == self.operations()@.push(Operation::NewFastAppend(paths)),
            r.sequence_number() == self.sequence_number(),
    {
        let mut operations = self.operations;
        operations.push(Operation::NewFastAppend(paths));
        Transaction { operations, sequence_number: self.sequence_number }
    }
}

impl Table {
    /// The metadata of the table.
    pub closed spec fn spec_metadata(&self) -> MetadataV2 {
        self.metadata
    }

    /// Where the metadata of the table is kept.
    pub closed spec fn spec_metadata_location(&self) -> Seq<char> {
        self.metadata_location@
    }

    /// The manifests of the current snapshot.
    pub closed spec fn spec_manifests(&self) -> Seq<ManifestFile> {
        self.manifests@
    }

    /// Whether the table is kept in a directory of an object store.
    pub closed spec fn spec_is_file_system(&self) -> bool {
        self.kind is FileSystem
    }

    /// A table whose metadata is kept in a directory of an object store.
    pub fn new_file_system(metadata: MetadataV2, metadata_location: String, manifests: Vec<ManifestFile>) -> (r: Table)
        ensures
            r.spec_metadata() == metadata,
            r.spec_metadata_location() == metadata_location@,
            r.spec_manifests() == manifests@,
            r.spec_is_file_system(),
    {
        Table { kind: TableKind::FileSystem, metadata, metadata_location, manifests }
    }

    /// A table whose metadata is kept in a catalog under `identifier`.
    pub fn new_metastore_table(
        identifier: TableIdentifier,
        metadata: MetadataV2,
        metadata_location: String,
        manifests: Vec<ManifestFile>,
    ) -> (r: Table)
        ensures
            r.spec_metadata() == metadata,
            r.spec_metadata_location() == metadata_location@,
            r.spec_manifests() == manifests@,
            !r.spec_is_file_system(),
    {
        Table { kind: TableKind::Metastore(identifier), metadata, metadata_location, manifests }
    }

    /// The identifier of the table in its catalog; `None` for a file system table.
    pub fn identifier(&self) -> (r: Option<&TableIdentifier>)
        ensures
            r is None <==> self.spec_is_file_system(),
    {
        match &self.kind {
            TableKind::FileSystem => None,
            TableKind::Metastore(identifier) => Some(identifier),
        }
    }

    /// The metadata of the table.
    pub fn metadata(&self) -> (r: &MetadataV2)
        ensures
            *r == self.spec_metadata(),
    {
        &self.metadata
    }

    /// The metadata of the table, taken out of it.
    pub fn into_metadata(self) -> (r: MetadataV2)
        ensures
            r == self.spec_metadata(),
    {
        self.metadata
    }

    /// The current schema of the table.
    pub fn schema(&self) -> (r: &SchemaStruct)
        requires
            has_schema(self.spec_metadata(), self.spec_metadata().current_schema_id),
        ensures
            exists|i: int| 0 <= i < self.spec_metadata().schemas@.len()
                && self.spec_metadata().schemas@[i].schema_id == self.spec_metadata().current_schema_id
                && *r == self.spec_metadata().schemas@[i].struct_fields,
    {
        &self.metadata.current_schema().struct_fields
    }

    /// Where the current metadata file of the table is.
    pub fn metadata_location(&self) -> (r: &str)
        ensures
            r@ == self.spec_metadata_location(),
    {
        self.metadata_location.as_str()
    }

    /// The manifests of the current snapshot.
    pub fn manifests(&self) -> (r: &[ManifestFile])
        ensures
            r@ == self.spec_manifests(),
    {
        self.manifests.as_slice()
    }

    /// The entries of the table's data files: the manifests are read in list
    /// order, but for those with a `true` in the pruning mask `filter`.
    pub fn files(&self, filter: Option<Vec<bool>>) -> (r: DataFileStream)
        ensures
            r.wf(),
            r.pending() == selected(self.spec_manifests().len(), mask_view(&filter)),
            r.buffered().len() == 0,
    {
        DataFileStream::new(self.manifests.len(), filter)
    }

    /// Start a transaction: the next sequence number is reserved for it at
    /// once. The table itself is not changed until the transaction is applied.
    pub fn new_transaction(&self) -> (r: Transaction)
        requires
            self.spec_metadata().last_sequence_number < i64::MAX,
        ensures
            r.operations()@.len() == 0,
            r.sequence_number() == self.spec_metadata().last_sequence_number + 1,
    {
        Transaction::new(self.metadata.last_sequence_number + 1)
    }

    /// Apply a transaction to the table's metadata: its reserved sequence
    /// number becomes the table's, then its operations run in order. Every
    /// spec update is checked and every random value drawn first, so a
    /// failure leaves the table as it was. Returns what each append writes.
    pub fn apply(&mut self, transaction: Transaction, timestamp_ms: i64) -> (r: Result<Vec<AppendPlan>, IcebergError>)
        ensures
            final(self).spec_metadata_location() == old(self).spec_metadata_location(),
            final(self).spec_manifests() == old(self).spec_manifests(),
            final(self).spec_is_file_system() == old(self).spec_is_file_system(),
            r is Err ==> final(self).spec_metadata() == old(self).spec_metadata(),
            r is Ok ==> applied(
                transaction.operations()@,
                MetadataV2 { last_sequence_number: transaction.sequence_number(), ..old(self).spec_metadata() },
                final(self).spec_metadata(),
                timestamp_ms,
            ),
            (exists|i: int| 0 <= i < transaction.operations()@.len()
                && (#[trigger] transaction.operations()@[i]) is UpdateSpec
                && !has_spec(old(self).spec_metadata(), transaction.operations()@[i]->UpdateSpec_0))
                ==> r is Err && r->Err_0 is Validation,
            (forall|i: int| 0 <= i < transaction.operations()@.len() ==>
                !((#[trigger] transaction.operations()@[i]) is NewFastAppend)
                && (transaction.operations()@[i] is UpdateSpec
                    ==> has_spec(old(self).spec_metadata(), transaction.operations()@[i]->UpdateSpec_0)))
                ==> r is Ok,
            metadata_wf(old(self).spec_metadata()) ==> metadata_wf(final(self).spec_metadata()),
            sequence_ordered(old(self).spec_metadata())
                && transaction.sequence_number() >= old(self).spec_metadata().last_sequence_number
                ==> sequence_ordered(final(self).spec_metadata()),
    {
        let Transaction { operations, sequence_number } = transaction;
        let ghost ops = operations@;
        let n = operations.len();
        let mut i: usize = 0;
        while i < n
            invariant
                n == ops.len(),
                operations@ == ops,
                ops == transaction.operations()@,
                i <= n,
                *self == *old(self),
                forall|k: int| 0 <= k < i ==> ((#[trigger] ops[k]) is UpdateSpec ==> has_spec(self.metadata, ops[k]->UpdateSpec_0)),
            decreases n - i,
        {
            if let Operation::UpdateSpec(id) = &operations[i] {
                if !spec_resolves(&self.metadata, *id) {
                    assert(ops[i as int] is UpdateSpec && !has_spec(self.metadata, ops[i as int]->UpdateSpec_0));
                    return Err(IcebergError::Validation(String::from_str("No partition spec with this id.")));
                }
            }
            i = i + 1;
        }
        let mut ids: Vec<i64> = Vec::new();
        let mut uuids: Vec<u128> = Vec::new();
        i = 0;
        while i < n
            invariant
                n == ops.len(),
                operations@ == ops,
                ops == transaction.operations()@,
                i <= n,
                ids@.len() == i,
                uuids@.len() == i,
                *self == *old(self),
                forall|k: int| 0 <= k < n ==> ((#[trigger] ops[k]) is UpdateSpec ==> has_spec(self.metadata, ops[k]->UpdateSpec_0)),
            decreases n - i,
        {
            if matches!(&operations[i], Operation::NewFastAppend(_)) {
                assert(ops[i as int] is NewFastAppend);
                let id = match random_i64() {
                    Some(id) => id,
                    None => return Err(IcebergError::Message(String::from_str("No random source for a snapshot id."))),
                };
                let u = match random_uuid() {
                    Some(u) => u,
                    None => return Err(IcebergError::Message(String::from_str("No random source for a file name."))),
                };
                ids.push(id);
                uuids.push(u);
            } else {
                ids.push(0);
                uuids.push(0);
            }
            i = i + 1;
        }
        i = 0;
        let mut rest = operations;
        let mut rev: Vec<Operation> = Vec::new();
        while rest.len() > 0
            invariant
                n == ops.len(),
                rev@.len() + rest@.len() == n,
                rest@ == ops.subrange(0, rest@.len() as int),
                forall|k: int| 0 <= k < rev@.len() ==> #[trigger] rev@[k] == ops[n - 1 - k],
            decreases rest@.len(),
        {
            let op = rest.pop().unwrap();
            rev.push(op);
        }
        self.metadata.last_sequence_number = sequence_number;
        let ghost m0 = self.metadata;
        let ghost mut states = seq![m0];
        let mut plans: Vec<AppendPlan> = Vec::new();
        let mut k: usize = 0;
        while rev.len() > 0
            invariant
                n == ops.len(),
                ids@.len() == n,
                uuids@.len() == n,
                rev@.len() + k == n,
                forall|t: int| 0 <= t < rev@.len() ==> #[trigger] rev@[t] == ops[n - 1 - t],
                states.len() == k + 1,
                states[0] == m0,
                states.last() == self.metadata,
                forall|t: int| 0 <= t < k ==> #[trigger] step(ops[t], states[t], states[t + 1], timestamp_ms),
                self.metadata.partition_specs == old(self).metadata.partition_specs,
                self.metadata_location == old(self).metadata_location,
                self.manifests == old(self).manifests,
                self.kind == old(self).kind,
                m0 == (MetadataV2 { last_sequence_number: sequence_number, ..old(self).metadata }),
                forall|j: int| 0 <= j < n ==> ((#[trigger] ops[j]) is UpdateSpec ==> has_spec(old(self).metadata, ops[j]->UpdateSpec_0)),
                metadata_wf(old(self).metadata) ==> metadata_wf(self.metadata),
                sequence_ordered(m0) ==> sequence_ordered(self.metadata),
            decreases rev@.len(),
        {
            let op = rev.pop().unwrap();
            let ghost mid = self.metadata;
            let ghost gop = op;
            assert(gop == ops[k as int]);
            let res = op.execute_with(&mut self.metadata, ids[k], uuids[k], timestamp_ms);
            proof {
                if gop is UpdateSpec {
                    assert(has_spec(mid, gop->UpdateSpec_0));
                }
                if gop is NewFastAppend {
                    assert(append_done(mid, self.metadata, gop->NewFastAppend_0@, res->Ok_0->Some_0, ids@[k as int], uuids@[k as int], timestamp_ms));
                }
                assert(step(gop, mid, self.metadata, timestamp_ms));
                let old_states = states;
                states = states.push(self.metadata);
                assert forall|t: int| 0 <= t < k + 1 implies #[trigger] step(ops[t], states[t], states[t + 1], timestamp_ms) by {
                    if t < k {
                        assert(states[t] == old_states[t] && states[t + 1] == old_states[t + 1]);
                    }
                }
            }
            match res {
                Ok(Some(plan)) => plans.push(plan),
                Ok(None) => {},
                Err(e) => return Err(e),
            }
            k = k + 1;
        }
        assert(steps_through(ops, states, timestamp_ms));
        Ok(plans)
    }

    /// Where the commit of the table's current metadata writes: for a file
    /// system table the temporary file and the canonical file of its sequence
    /// number; for a catalog table a versioned file, and no second file.
    pub fn commit_paths(&self, u: u128) -> (r: (String, Option<String>))
        ensures
            self.spec_is_file_system() ==> r.0@ == temp_metadata_text(self.spec_metadata().location@, u)
                && r.1 is Some
                && r.1->Some_0@ == metadata_file_text(self.spec_metadata().location@,
                    self.spec_metadata().last_sequence_number as int),
            !self.spec_is_file_system() ==> r.0@ == versioned_metadata_text(self.spec_metadata().location@,
                self.spec_metadata().last_sequence_number as int, u) && r.1 is None,
    {
        let location = self.metadata.location.as_str();
        match &self.kind {
            TableKind::FileSystem => (
                temp_metadata_path(location, u),
                Some(metadata_file_path(location, self.metadata.last_sequence_number)),
            ),
            TableKind::Metastore(_) => (
                versioned_metadata_path(location, self.metadata.last_sequence_number, u),
                None,
            ),
        }
    }
}

/// Builds the first metadata of a new table.
pub struct TableBuilder {
    identifier: Option<TableIdentifier>,
    metadata: MetadataV2,
}

impl TableBuilder {
    /// The metadata the table will have.
    pub closed spec fn spec_metadata(&self) -> MetadataV2 {
        self.metadata
    }

    /// Whether the table is kept in a directory of an object store.
    pub closed spec fn spec_is_file_system(&self) -> bool {
        self.identifier is None
    }

    /// The first metadata of a table at `location` with schema `schema` as its
    /// current schema: one void partition spec and one sort order, both with
    /// id 1, sequence number 0.
    pub fn new(identifier: Option<TableIdentifier>, location: String, schema: SchemaV2, table_uuid: u128, timestamp_ms: i64) -> (r: TableBuilder)
        ensures
            r.spec_is_file_system() == (identifier is None),
            r.spec_metadata().location == location,
            r.spec_metadata().table_uuid == table_uuid,
            r.spec_metadata().last_sequence_number == 0,
            r.spec_metadata().last_updated_ms == timestamp_ms,
            r.spec_metadata().last_column_id == schema.struct_fields.fields@.len() as i32,
            r.spec_metadata().schemas@ == seq![schema],
            r.spec_metadata().current_schema_id == schema.schema_id,
            r.spec_metadata().default_spec_id == 1,
            metadata_wf(r.spec_metadata()),
            r.spec_metadata().last_partition_id == 1,
            r.spec_metadata().partition_specs@.len() == 1,
            r.spec_metadata().partition_specs@[0].spec_id == 1,
            r.spec_metadata().current_snapshot_id is None,
            r.spec_metadata().snapshots is None,
    {
        let mut fields = Vec::new();
        fields.push(PartitionField {
            source_id: 1,
            field_id: 1,
            name: String::from_str("default"),
            transform: Transform::Void,
        });
        let mut specs = Vec::new();
        specs.push(PartitionSpec { spec_id: 1, fields });
        let mut sort_fields = Vec::new();
        sort_fields.push(SortField {
            source_id: 1,
            transform: Transform::Void,
            direction: SortDirection::Descending,
            null_order: NullOrder::Last,
        });
        let mut sort_orders = Vec::new();
        sort_orders.push(SortOrder { order_id: 1, fields: sort_fields });
        let last_column_id = #[verifier::truncate] (schema.struct_fields.fields.len() as i32);
        let current_schema_id = schema.schema_id;
        let mut schemas = Vec::new();
        schemas.push(schema);
        assert(schemas@ =~= seq![schema]);
        let metadata = MetadataV2 {
            table_uuid,
            location,
            last_sequence_number: 0,
            last_updated_ms: timestamp_ms,
            last_column_id,
            schemas,
            current_schema_id,
            partition_specs: specs,
            default_spec_id: 1,
            last_partition_id: 1,
            properties: None,
            current_snapshot_id: None,
            snapshots: None,
            snapshot_log: None,
            metadata_log: None,
            sort_orders,
            default_sort_order_id: 0,
            refs: None,
        };
        assert(metadata.schemas@[0].schema_id == current_schema_id);
        assert(metadata.partition_specs@[0].spec_id == 1);
        TableBuilder { identifier, metadata }
    }

    /// Add a partition spec.
    pub fn with_partition_spec(self, partition_spec: PartitionSpec) -> (r: TableBuilder)
        ensures
            r.spec_is_file_system() == self.spec_is_file_system(),
            r.spec_metadata() == (MetadataV2 {
                partition_specs: r.spec_metadata().partition_specs,
                ..self.spec_metadata()
            }),
            r.spec_metadata().partition_specs@ == self.spec_metadata().partition_specs@.push(partition_spec),
            metadata_wf(self.spec_metadata()) ==> metadata_wf(r.spec_metadata()),
    {
        let mut metadata = self.metadata;
        let ghost before = metadata.partition_specs@;
        metadata.partition_specs.push(partition_spec);
        proof {
            if has_spec(self.metadata, self.metadata.default_spec_id) {
                let i = choose|i: int| 0 <= i < before.len() && (#[trigger] before[i]).spec_id == self.metadata.default_spec_id;
                assert(metadata.partition_specs@[i] == before[i]);
            }
        }
        TableBuilder { identifier: self.identifier, metadata }
    }

    /// Where the first metadata file goes: version 0 of a file system table,
    /// or a file of version 0 under the UUID `u` for a catalog table.
    pub fn metadata_path(&self, u: u128) -> (r: String)
        ensures
            self.spec_is_file_system() ==> r@ == metadata_file_text(self.spec_metadata().location@, 0),
            !self.spec_is_file_system() ==> r@ == versioned_metadata_text(self.spec_metadata().location@, 0, u),
    {
        match &self.identifier {
            None => metadata_file_path(self.metadata.location.as_str(), 0),
            Some(_) => versioned_metadata_path(self.metadata.location.as_str(), 0, u),
        }
    }

    /// The table, kept at `metadata_location`, with no manifests yet.
    pub fn build(self, metadata_location: String) -> (r: Table)
        ensures
            r.spec_metadata() == self.spec_metadata(),
            r.spec_metadata_location() == metadata_location@,
            r.spec_manifests().len() == 0,
            r.spec_is_file_system() == self.spec_is_file_system(),
    {
        match self.identifier {
            None => Table::new_file_system(self.metadata, metadata_location, Vec::new()),
            Some(identifier) => Table::new_metastore_table(identifier, self.metadata, metadata_location, Vec::new()),
        }
    }
}

} // verus!
