//! Snapshots of a table, and named references to them.

use vstd::prelude::*;
use std::collections::HashMap;

verus! {

/// The kind of operation that produced a snapshot.
#[derive(Debug, PartialEq, Eq, Clone, Copy, Structural)]
pub enum Operation {
    /// Only data files were added.
    Append,
    /// Files were replaced without changing the data.
    Replace,
    /// Data was overwritten.
    Overwrite,
    /// Data files were removed.
    Delete,
}

/// Summary of a snapshot: the operation and free-form properties.
#[derive(Debug, PartialEq, Eq, Clone)]
pub struct Summary {
    /// The operation, if known.
    pub operation: Option<Operation>,
    /// Other properties, by key.
    pub other: HashMap<String, String>,
}

impl Summary {
    /// A summary with no operation and no properties.
    pub fn empty() -> (r: Summary)
        ensures
            r.operation is None,
            r.other@ == Map::<String, String>::empty(),
    {
        Summary { operation: None, other: HashMap::new() }
    }
}

/// A snapshot, version 2.
#[derive(Debug, PartialEq, Eq, Clone)]
pub struct SnapshotV2 {
    /// Unique id.
    pub snapshot_id: i64,
    /// Id of the parent snapshot.
    pub parent_snapshot_id: Option<i64>,
    /// Sequence number of the change.
    pub sequence_number: i64,
    /// Creation time, in milliseconds from the epoch.
    pub timestamp_ms: i64,
    /// Location of the manifest list.
    pub manifest_list: String,
    /// Summary.
    pub summary: Summary,
    /// Id of the schema current when the snapshot was made.
    pub schema_id: Option<i64>,
}

/// A snapshot, version 1.
#[derive(Debug, PartialEq, Eq, Clone)]
pub struct SnapshotV1 {
    /// Unique id.
    pub snapshot_id: i64,
    /// Id of the parent snapshot.
    pub parent_snapshot_id: Option<i64>,
    /// Creation time, in milliseconds from the epoch.
    pub timestamp_ms: i64,
    /// Location of the manifest list.
    pub manifest_list: Option<String>,
    /// Locations of manifests, when there is no list.
    pub manifests: Option<Vec<String>>,
    /// Summary.
    pub summary: Option<Summary>,
    /// Id of the schema current when the snapshot was made.
    pub schema_id: Option<i64>,
}

/// Whether `r` is the version 2 form of `v1`: sequence number 0, an empty
/// manifest list location and an empty summary where they are missing.
pub open spec fn snapshot_upgraded(r: SnapshotV2, v1: SnapshotV1) -> bool {
    &&& r.snapshot_id == v1.snapshot_id
    &&& r.parent_snapshot_id == v1.parent_snapshot_id
    &&& r.sequence_number == 0
    &&& r.timestamp_ms == v1.timestamp_ms
    &&& r.manifest_list@ == (match v1.manifest_list {
        Some(l) => l@,
        None => Seq::<char>::empty(),
    })
    &&& (v1.summary is Some ==> r.summary == v1.summary->Some_0)
    &&& (v1.summary is None ==> r.summary.operation is None && r.summary.other@ == Map::<String, String>::empty())
    &&& r.schema_id == v1.schema_id
}

/// Whether two snapshots hold the same values: equal fields, the manifest
/// list location and the summary's properties compared by content.
pub open spec fn same_snapshot(a: SnapshotV2, b: SnapshotV2) -> bool {
    &&& a.snapshot_id == b.snapshot_id
    &&& a.parent_snapshot_id == b.parent_snapshot_id
    &&& a.sequence_number == b.sequence_number
    &&& a.timestamp_ms == b.timestamp_ms
    &&& a.manifest_list@ == b.manifest_list@
    &&& a.summary.operation == b.summary.operation
    &&& a.summary.other@ == b.summary.other@
    &&& a.schema_id == b.schema_id
}

/// Two upgrades of one version 1 snapshot hold the same values.
pub proof fn lemma_snapshot_upgrade_deterministic(a: SnapshotV2, b: SnapshotV2, v1: SnapshotV1)
    requires
        snapshot_upgraded(a, v1),
        snapshot_upgraded(b, v1),
    ensures
        same_snapshot(a, b),
{
}

impl SnapshotV2 {
    /// The version 2 form of a version 1 snapshot: sequence number 0, an empty
    /// manifest list location and an empty summary where they are missing.
    pub fn from_v1(v1: SnapshotV1) -> (r: SnapshotV2)
        ensures
            snapshot_upgraded(r, v1),
    {
        SnapshotV2 {
            snapshot_id: v1.snapshot_id,
            parent_snapshot_id: v1.parent_snapshot_id,
            sequence_number: 0,
            timestamp_ms: v1.timestamp_ms,
            manifest_list: match v1.manifest_list {
                Some(l) => l,
                None => String::new(),
            },
            summary: match v1.summary {
                Some(s) => s,
                None => Summary::empty(),
            },
            schema_id: v1.schema_id,
        }
    }
}

/// A named pointer to a snapshot.
#[derive(Debug, PartialEq, Eq, Clone)]
pub struct Reference {
    /// The snapshot pointed to.
    pub snapshot_id: i64,
    /// The retention policy.
    pub retention: Retention,
}

/// Retention policy of a reference.
#[derive(Debug, PartialEq, Eq, Clone, Copy, Structural)]
pub enum Retention {
    /// A branch.
    Branch {
        /// Snapshots to keep at least.
        min_snapshots_to_keep: Option<i32>,
        /// Maximum age of snapshots, in milliseconds.
        max_snapshot_age_ms: Option<i64>,
        /// Maximum age of the reference, in milliseconds.
        max_ref_age_ms: Option<i64>,
    },
    /// A tag.
    Tag {
        /// Maximum age of the reference, in milliseconds.
        max_ref_age_ms: i64,
    },
}

} // verus!
