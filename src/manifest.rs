//! Manifests: entries describing data files, the partition tuple whose field
//! name depends on the partition spec, and the summaries of a manifest list.

use vstd::prelude::*;
use vstd::string::*;
use crate::error::IcebergError;
use crate::partition::PartitionField;
use crate::text::text_eq;
use std::collections::HashMap;

verus! {

/// Whether a file was added, kept or deleted by the snapshot of its entry.
#[derive(Debug, PartialEq, Eq, Clone, Copy, Structural)]
pub enum Status {
    /// Existing file (0).
    Existing,
    /// Added file (1).
    Added,
    /// Deleted file (2).
    Deleted,
}

/// The integer code of a status.
pub open spec fn status_code(s: Status) -> u8 {
    match s {
        Status::Existing => 0u8,
        Status::Added => 1u8,
        Status::Deleted => 2u8,
    }
}

impl Status {
    /// The integer code of the status.
    pub fn code(&self) -> (r: u8)
        ensures
            r == status_code(*self),
    {
        match self {
            Status::Existing => 0,
            Status::Added => 1,
            Status::Deleted => 2,
        }
    }

    /// The status with integer code `c`, if any.
    pub fn from_code(c: u8) -> (r: Option<Status>)
        ensures
            r is Some <==> c <= 2,
            r is Some ==> status_code(r->Some_0) == c,
    {
        match c {
            0 => Some(Status::Existing),
            1 => Some(Status::Added),
            2 => Some(Status::Deleted),
            _ => None,
        }
    }
}

/// The kind of content of a data file or manifest.
#[derive(Debug, PartialEq, Eq, Clone, Copy, Structural)]
pub enum Content {
    /// Data (0).
    Data,
    /// Deletes by position (1).
    PositionDeletes,
    /// Deletes by equality (2).
    EqualityDeletes,
}

/// The format of a data file.
#[derive(Debug, PartialEq, Eq, Clone, Copy, Structural)]
pub enum FileFormat {
    /// Avro.
    Avro,
    /// ORC.
    Orc,
    /// Parquet.
    Parquet,
}

/// The text form of a file format.
pub open spec fn file_format_text(f: FileFormat) -> Seq<char> {
    match f {
        FileFormat::Avro => "AVRO"@,
        FileFormat::Orc => "ORC"@,
        FileFormat::Parquet => "PARQUET"@,
    }
}

impl FileFormat {
    /// The text form of the format.
    pub fn to_text(&self) -> (r: String)
        ensures
            r@ == file_format_text(*self),
    {
        match self {
            FileFormat::Avro => String::from_str("AVRO"),
            FileFormat::Orc => String::from_str("ORC"),
            FileFormat::Parquet => String::from_str("PARQUET"),
        }
    }

    /// Read a format from its text form.
    pub fn from_text(s: &str) -> (r: Result<FileFormat, IcebergError>)
        ensures
            r is Ok <==> (s@ == "AVRO"@ || s@ == "ORC"@ || s@ == "PARQUET"@),
            r is Ok ==> file_format_text(r->Ok_0) == s@,
            r is Err ==> r->Err_0 is Format,
    {
        if text_eq(s, "AVRO") {
            Ok(FileFormat::Avro)
        } else if text_eq(s, "ORC") {
            Ok(FileFormat::Orc)
        } else if text_eq(s, "PARQUET") {
            Ok(FileFormat::Parquet)
        } else {
            Err(IcebergError::Format(String::from_str("Invalid data file format.")))
        }
    }
}

/// The field name under which the partition value is held in memory.
pub open spec fn canonical_partition_name() -> Seq<char> {
    "partition_spec_name"@
}

/// The record schema of the partition tuple of a spec whose partition field is `name`.
pub open spec fn partition_schema_text(name: Seq<char>) -> Seq<char> {
    "{\"type\": \"record\",\"name\": \"r102\",\"fields\": [{\"name\": \""@ + name
        + "\", \"type\":  [\"null\",\"long\"], \"aliases\": [\"partition_spec_name\"], \"default\": null}]}"@
}

/// The partition tuple of a data file, held under one fixed field name
/// whatever the partition field of its spec is called.
#[derive(Debug, PartialEq, Eq, Clone, Copy, Structural)]
pub struct PartitionStruct {
    /// The partition value.
    pub partition_spec_name: Option<i64>,
}

impl PartitionStruct {
    /// The record schema to write a partition tuple of a spec whose partition
    /// field is called `partition_spec_name`.
    pub fn write_schema(partition_spec_name: &str) -> (r: String)
        ensures
            r@ == partition_schema_text(partition_spec_name@),
    {
        let mut r = String::from_str("{\"type\": \"record\",\"name\": \"r102\",\"fields\": [{\"name\": \"");
        r.append(partition_spec_name);
        r.append("\", \"type\":  [\"null\",\"long\"], \"aliases\": [\"partition_spec_name\"], \"default\": null}]}");
        r
    }

    /// The record schema to read the partition tuples of a manifest, from the
    /// partition fields and the partition spec id in its metadata: the field at
    /// position `partition_spec_id` names the tuple's field.
    pub fn read_schema(partition_fields: &Vec<PartitionField>, partition_spec_id: i32) -> (r: Result<String, IcebergError>)
        ensures
            r is Ok <==> 0 <= partition_spec_id < partition_fields@.len(),
            r is Ok ==> r->Ok_0@ == partition_schema_text(partition_fields@[partition_spec_id as int].name@),
            r is Err ==> r->Err_0 is Format,
    {
        if partition_spec_id < 0 || partition_spec_id as usize >= partition_fields.len() {
            return Err(IcebergError::Format(String::from_str("No partition spec in metadata.")));
        }
        Ok(PartitionStruct::write_schema(partition_fields[partition_spec_id as usize].name.as_str()))
    }
}

/// Record schemas of partition tuples, built once per partition spec id and
/// kept: the schema of a spec is built from its partition field name the
/// first time the spec is asked for.
#[derive(Debug, Clone)]
pub struct PartitionSchemaCache {
    entries: Vec<(i32, String)>,
}

impl PartitionSchemaCache {
    /// The cached schemas, by spec id.
    pub closed spec fn view(&self) -> Map<i32, Seq<char>> {
        pairs_to_map(self.entries@).map_values(|s: String| s@)
    }

    /// Whether each spec id is cached once.
    pub closed spec fn wf(&self) -> bool {
        keys_unique(self.entries@)
    }

    /// An empty cache.
    pub fn new() -> (r: PartitionSchemaCache)
        ensures
            r.wf(),
            r.view() == Map::<i32, Seq<char>>::empty(),
    {
        let r = PartitionSchemaCache { entries: Vec::new() };
        assert(r.view() =~= Map::<i32, Seq<char>>::empty());
        r
    }

    /// The schema of spec `spec_id`: the cached one, or else the schema for
    /// the partition field `partition_name`, which is then cached.
    pub fn schema_for(&mut self, spec_id: i32, partition_name: &str) -> (r: String)
        requires
            old(self).wf(),
        ensures
            final(self).wf(),
            old(self).view().contains_key(spec_id) ==> r@ == old(self).view()[spec_id]
                && final(self).view() == old(self).view(),
            !old(self).view().contains_key(spec_id) ==> r@ == partition_schema_text(partition_name@)
                && final(self).view() == old(self).view().insert(spec_id, r@),
    {
        let mut i: usize = 0;
        while i < self.entries.len()
            invariant
                i <= self.entries@.len(),
                keys_unique(self.entries@),
                *self == *old(self),
                forall|k: int| 0 <= k < i ==> (#[trigger] self.entries@[k]).0 != spec_id,
            decreases self.entries@.len() - i,
        {
            if self.entries[i].0 == spec_id {
                proof { lemma_unique_lookup(self.entries@, i as int); }
                return self.entries[i].1.clone();
            }
            i = i + 1;
        }
        proof { lemma_absent_key(self.entries@, spec_id); }
        let schema = PartitionStruct::write_schema(partition_name);
        let ghost before = self.entries@;
        insert_unique(&mut self.entries, spec_id, String::from_str(schema.as_str()));
        assert(self.view() =~= pairs_to_map(before).map_values(|s: String| s@).insert(spec_id, schema@));
        schema
    }
}

/// The field names of a partition record after renaming for writing: the
/// canonical name becomes the spec's field name.
pub open spec fn write_names(names: Seq<Seq<char>>, spec_name: Seq<char>) -> Seq<Seq<char>> {
    names.map_values(|n: Seq<char>| if n == canonical_partition_name() { spec_name } else { n })
}

/// The field names of a partition record after renaming for reading: a
/// record of one field takes the canonical name.
pub open spec fn read_names(names: Seq<Seq<char>>) -> Seq<Seq<char>> {
    if names.len() == 1 { seq![canonical_partition_name()] } else { names }
}

/// Rename the fields of a partition record before it is encoded: each field
/// under the canonical name takes the partition field name of the spec.
pub fn rename_for_write(names: &mut Vec<String>, spec_name: &str)
    ensures
        crate::catalog::views(final(names)@) == write_names(crate::catalog::views(old(names)@), spec_name@),
{
    let ghost orig = crate::catalog::views(names@);
    let mut i: usize = 0;
    while i < names.len()
        invariant
            names@.len() == orig.len(),
            i <= names@.len(),
            forall|k: int| 0 <= k < i ==> (#[trigger] names@[k])@ == (if orig[k] == canonical_partition_name() { spec_name@ } else { orig[k] }),
            forall|k: int| i <= k < names@.len() ==> (#[trigger] names@[k])@ == orig[k],
        decreases names@.len() - i,
    {
        if text_eq(names[i].as_str(), "partition_spec_name") {
            names.set(i, String::from_str(spec_name));
        }
        i = i + 1;
    }
    assert(crate::catalog::views(names@) =~= write_names(orig, spec_name@));
}

/// Rename the fields of a partition record after it is decoded: a record of
/// one field takes the canonical name.
pub fn canonicalize_for_read(names: &mut Vec<String>)
    ensures
        crate::catalog::views(final(names)@) == read_names(crate::catalog::views(old(names)@)),
{
    if names.len() == 1 {
        names.set(0, String::from_str("partition_spec_name"));
        assert(crate::catalog::views(names@) =~= seq![canonical_partition_name()]);
    }
}

/// The partition field survives a write followed by a read: a record of one
/// field under the canonical name, renamed for writing under any spec field
/// name and then renamed for reading, is again a record of one field under
/// the canonical name.
pub proof fn lemma_partition_name_round_trip(spec_name: Seq<char>)
    ensures
        read_names(write_names(seq![canonical_partition_name()], spec_name))
            == seq![canonical_partition_name()],
{
}

/// Column-keyed statistics: a map from column id to value, encoded as a list
/// of key and value records; the last record of a key wins.
#[derive(Debug, PartialEq, Eq, Clone)]
pub struct AvroMap<T> {
    map: HashMap<i32, T>,
}

/// The map that a list of key and value records denotes: later records win.
pub open spec fn pairs_to_map<T>(s: Seq<(i32, T)>) -> Map<i32, T>
    decreases s.len(),
{
    if s.len() == 0 {
        Map::empty()
    } else {
        pairs_to_map(s.drop_last()).insert(s.last().0, s.last().1)
    }
}

/// Whether no key occurs twice.
pub open spec fn keys_unique<T>(s: Seq<(i32, T)>) -> bool {
    forall|i: int, j: int| 0 <= i < j < s.len() ==> #[trigger] s[i].0 != #[trigger] s[j].0
}

impl<T> AvroMap<T> {
    /// The map from column id to value.
    pub closed spec fn view(&self) -> Map<i32, T> {
        self.map@
    }

    /// The map of a list of key and value records; the last record of a key wins.
    pub fn from_pairs(pairs: Vec<(i32, T)>) -> (r: AvroMap<T>)
        ensures
            r.view() == pairs_to_map(pairs@),
    {
        broadcast use vstd::std_specs::hash::group_hash_axioms;
        let mut map: HashMap<i32, T> = HashMap::new();
        let mut rest = pairs;
        let ghost orig = rest@;
        let total = rest.len();
        let mut rev: Vec<(i32, T)> = Vec::new();
        while rest.len() > 0
            invariant
                rev@.len() + rest@.len() == orig.len(),
                rest@ == orig.subrange(0, rest@.len() as int),
                forall|k: int| 0 <= k < rev@.len() ==> #[trigger] rev@[k] == orig[orig.len() - 1 - k],
            decreases rest@.len(),
        {
            let p = rest.pop().unwrap();
            rev.push(p);
        }
        let mut done: usize = 0;
        assert(map@ =~= pairs_to_map(orig.subrange(0, 0)));
        while rev.len() > 0
            invariant
                done + rev@.len() == orig.len(),
                orig.len() == total,
                forall|k: int| 0 <= k < rev@.len() ==> #[trigger] rev@[k] == orig[orig.len() - 1 - k],
                map@ == pairs_to_map(orig.subrange(0, done as int)),
            decreases rev@.len(),
        {
            let (k, v) = rev.pop().unwrap();
            let ghost before = orig.subrange(0, done as int);
            let ghost after = orig.subrange(0, done + 1);
            assert(after.drop_last() =~= before);
            assert(after.last() == (k, v));
            map.insert(k, v);
            done = done + 1;
        }
        assert(orig.subrange(0, orig.len() as int) =~= orig);
        AvroMap { map }
    }

    /// The value of column `key`, if any.
    pub fn get(&self, key: i32) -> (r: Option<&T>)
        ensures
            r is Some <==> self.view().contains_key(key),
            r is Some ==> *r->Some_0 == self.view()[key],
    {
        broadcast use vstd::std_specs::hash::group_hash_axioms;
        self.map.get(&key)
    }

    /// The map from column id to value.
    pub fn into_map(self) -> (r: HashMap<i32, T>)
        ensures
            r@ == self.view(),
    {
        self.map
    }

    /// The number of columns.
    pub fn len(&self) -> (r: usize)
        ensures
            r == self.view().len(),
    {
        broadcast use vstd::std_specs::hash::group_hash_axioms;
        self.map.len()
    }
}

proof fn lemma_absent_key<T>(s: Seq<(i32, T)>, key: i32)
    requires
        forall|k: int| 0 <= k < s.len() ==> (#[trigger] s[k]).0 != key,
    ensures
        !pairs_to_map(s).contains_key(key),
    decreases s.len(),
{
    if s.len() > 0 {
        lemma_absent_key(s.drop_last(), key);
        assert(s.last() == s[s.len() - 1]);
    }
}

proof fn lemma_unique_lookup<T>(s: Seq<(i32, T)>, i: int)
    requires
        keys_unique(s),
        0 <= i < s.len(),
    ensures
        pairs_to_map(s).contains_key(s[i].0),
        pairs_to_map(s)[s[i].0] == s[i].1,
    decreases s.len(),
{
    if i < s.len() - 1 {
        lemma_unique_lookup(s.drop_last(), i);
        assert(s.drop_last()[i] == s[i]);
        assert(s[i].0 != s[s.len() - 1].0);
    }
}

fn insert_unique<T>(entries: &mut Vec<(i32, T)>, k: i32, v: T)
    requires
        keys_unique(old(entries)@),
    ensures
        keys_unique(final(entries)@),
        pairs_to_map(final(entries)@) == pairs_to_map(old(entries)@).insert(k, v),
{
    let ghost orig = entries@;
    let mut i: usize = 0;
    while i < entries.len()
        invariant
            entries@ == orig,
            orig == old(entries)@,
            i <= entries@.len(),
            keys_unique(orig),
            forall|j: int| 0 <= j < i ==> (#[trigger] entries@[j]).0 != k,
        decreases entries@.len() - i,
    {
        if entries[i].0 == k {
            entries.set(i, (k, v));
            proof { lemma_replace(orig, i as int, k, v); }
            assert(entries@ == orig.update(i as int, (k, v)));
            return;
        }
        i = i + 1;
    }
    entries.push((k, v));
    assert(entries@.drop_last() =~= orig);
    assert(keys_unique(entries@)) by {
        assert forall|a: int, b: int| 0 <= a < b < entries@.len() implies
            #[trigger] entries@[a].0 != #[trigger] entries@[b].0 by {
            if b < orig.len() {
                assert(entries@[a] == orig[a] && entries@[b] == orig[b]);
            }
        }
    }
}

proof fn lemma_replace<T>(s: Seq<(i32, T)>, i: int, k: i32, v: T)
    requires
        keys_unique(s),
        0 <= i < s.len(),
        s[i].0 == k,
    ensures
        keys_unique(s.update(i, (k, v))),
        pairs_to_map(s.update(i, (k, v))) == pairs_to_map(s).insert(k, v),
    decreases s.len(),
{
    let u = s.update(i, (k, v));
    assert(keys_unique(u)) by {
        assert forall|a: int, b: int| 0 <= a < b < u.len() implies
            #[trigger] u[a].0 != #[trigger] u[b].0 by {
            assert(u[a].0 == s[a].0 && u[b].0 == s[b].0);
        }
    }
    if i == s.len() - 1 {
        assert(u.drop_last() =~= s.drop_last());
        assert(pairs_to_map(u) =~= pairs_to_map(s).insert(k, v));
    } else {
        let t = s.drop_last();
        lemma_replace(t, i, k, v);
        assert(u.drop_last() =~= t.update(i, (k, v)));
        assert(s.last().0 != k);
        assert(pairs_to_map(u) =~= pairs_to_map(s).insert(k, v));
    }
}

/// A data file of a manifest entry.
#[derive(Debug, PartialEq, Eq, Clone)]
pub struct DataFile {
    /// Content of the file.
    pub content: Option<Content>,
    /// Full URI of the file.
    pub file_path: String,
    /// Format of the file.
    pub file_format: FileFormat,
    /// The partition tuple.
    pub partition: PartitionStruct,
    /// Number of records.
    pub record_count: i64,
    /// Size in bytes.
    pub file_size_in_bytes: i64,
    /// Block size.
    pub block_size_in_bytes: Option<i64>,
    /// File ordinal.
    pub file_ordinal: Option<i32>,
    /// Sort columns.
    pub sort_columns: Option<Vec<i32>>,
    /// Column id to size on disk.
    pub column_sizes: Option<AvroMap<i64>>,
    /// Column id to number of values.
    pub value_counts: Option<AvroMap<i64>>,
    /// Column id to number of nulls.
    pub null_value_counts: Option<AvroMap<i64>>,
    /// Column id to number of NaNs.
    pub nan_value_counts: Option<AvroMap<i64>>,
    /// Column id to number of distinct values.
    pub distinct_counts: Option<AvroMap<i64>>,
    /// Column id to lower bound.
    pub lower_bounds: Option<AvroMap<Vec<u8>>>,
    /// Column id to upper bound.
    pub upper_bounds: Option<AvroMap<Vec<u8>>>,
    /// Key metadata for encryption.
    pub key_metadata: Option<Vec<u8>>,
    /// Split offsets.
    pub split_offsets: Option<Vec<i64>>,
    /// Field ids of equality deletes.
    pub equality_ids: Option<Vec<i32>>,
    /// Sort order id.
    pub sort_order_id: Option<i32>,
}

/// An entry of a manifest.
#[derive(Debug, PartialEq, Eq, Clone)]
pub struct ManifestEntry {
    /// Added, existing or deleted.
    pub status: Status,
    /// Snapshot that added or deleted the file; inherited when absent.
    pub snapshot_id: Option<i64>,
    /// Sequence number of the addition; inherited when absent.
    pub sequence_number: Option<i64>,
    /// The data file.
    pub data_file: DataFile,
}

/// The record schema of a data file whose partition tuple has schema `p`.
pub open spec fn data_file_schema_text(p: Seq<char>) -> Seq<char> {
    r#"{"type": "record","name": "r2","fields": [{"name": "content","type": ["null","int"],"default": null,"field_id": 134},{"name": "file_path","type": "string","field_id": 100},{"name": "file_format","type": "string","field_id": 101},{"name": "partition","type": "#@ + p
        + r#","field_id": 102},{"name": "record_count","type": "long","field_id": 103},{"name": "file_size_in_bytes","type": "long","field_id": 104},{"name": "block_size_in_bytes","type": ["null","long"],"default": null,"field_id": 105},{"name": "file_ordinal","type": ["null","int"],"default": null,"field_id": 106},{"name": "sort_columns","type": ["null",{"type": "array","items": "int","element-id": 112}],"default": null,"field_id": 107},{"name": "column_sizes","type": ["null",{"type": "array","logicalType": "map","items": {"type": "record","name": "k117_v118","fields": [{"name": "key","type": "int","field-id": 117},{"name": "value","type": "long","field-id": 118}]}}],"default": null,"field_id": 108},{"name": "value_counts","type": ["null",{"type": "array","logicalType": "map","items": {"type": "record","name": "k119_v120","fields": [{"name": "key","type": "int","field-id": 119},{"name": "value","type": "long","field-id": 120}]}}],"default": null,"field_id": 109},{"name": "null_value_counts","type": ["null",{"type": "array","logicalType": "map","items": {"type": "record","name": "k121_v122","fields": [{"name": "key","type": "int","field-id": 121},{"name": "value","type": "long","field-id": 122}]}}],"default": null,"field_id": 110},{"name": "nan_value_counts","type": ["null",{"type": "array","logicalType": "map","items": {"type": "record","name": "k138_v139","fields": [{"name": "key","type": "int","field-id": 138},{"name": "value","type": "long","field-id": 139}]}}],"default": null,"field_id": 137},{"name": "distinct_counts","type": ["null",{"type": "array","logicalType": "map","items": {"type": "record","name": "k123_v124","fields": [{"name": "key","type": "int","field-id": 123},{"name": "value","type": "long","field-id": 124}]}}],"default": null,"field_id": 111},{"name": "lower_bounds","type": ["null",{"type": "array","logicalType": "map","items": {"type": "record","name": "k126_v127","fields": [{"name": "key","type": "int","field-id": 126},{"name": "value","type": "bytes","field-id": 127}]}}],"default": null,"field_id": 125},{"name": "upper_bounds","type": ["null",{"type": "array","logicalType": "map","items": {"type": "record","name": "k129_v130","fields": [{"name": "key","type": "int","field-id": 129},{"name": "value","type": "bytes","field-id": 130}]}}],"default": null,"field_id": 128},{"name": "key_metadata","type": ["null","bytes"],"default": null,"field_id": 131},{"name": "split_offsets","type": ["null",{"type": "array","items": "long","element-id": 133}],"default": null,"field_id": 132},{"name": "equality_ids","type": ["null",{"type": "array","items": "int","element-id": 136}],"default": null,"field_id": 135},{"name": "sort_order_id","type": ["null","int"],"default": null,"field_id": 140}]}"#@
}

/// The record schema of a manifest entry whose partition tuple has schema `p`.
pub open spec fn manifest_entry_schema_text(p: Seq<char>) -> Seq<char> {
    r#"{"type": "record","name": "manifest_entry","fields": [{"name": "status","type": "int","field_id": 0},{"name": "snapshot_id","type": ["null","long"],"default": null,"field_id": 1},{"name": "sequence_number","type": ["null","long"],"default": null,"field_id": 3},{"name": "data_file","type": "#@ + data_file_schema_text(p)
        + r#","field_id": 2}]}"#@
}

impl DataFile {
    /// The record schema of a data file whose partition tuple has schema
    /// `partition_schema`: fields 100 to 140 of the format, with the partition
    /// tuple as field 102.
    pub fn schema(partition_schema: &str) -> (r: String)
        ensures
            r@ == data_file_schema_text(partition_schema@),
    {
        let mut r = String::from_str(r#"{"type": "record","name": "r2","fields": [{"name": "content","type": ["null","int"],"default": null,"field_id": 134},{"name": "file_path","type": "string","field_id": 100},{"name": "file_format","type": "string","field_id": 101},{"name": "partition","type": "#);
        r.append(partition_schema);
        r.append(r#","field_id": 102},{"name": "record_count","type": "long","field_id": 103},{"name": "file_size_in_bytes","type": "long","field_id": 104},{"name": "block_size_in_bytes","type": ["null","long"],"default": null,"field_id": 105},{"name": "file_ordinal","type": ["null","int"],"default": null,"field_id": 106},{"name": "sort_columns","type": ["null",{"type": "array","items": "int","element-id": 112}],"default": null,"field_id": 107},{"name": "column_sizes","type": ["null",{"type": "array","logicalType": "map","items": {"type": "record","name": "k117_v118","fields": [{"name": "key","type": "int","field-id": 117},{"name": "value","type": "long","field-id": 118}]}}],"default": null,"field_id": 108},{"name": "value_counts","type": ["null",{"type": "array","logicalType": "map","items": {"type": "record","name": "k119_v120","fields": [{"name": "key","type": "int","field-id": 119},{"name": "value","type": "long","field-id": 120}]}}],"default": null,"field_id": 109},{"name": "null_value_counts","type": ["null",{"type": "array","logicalType": "map","items": {"type": "record","name": "k121_v122","fields": [{"name": "key","type": "int","field-id": 121},{"name": "value","type": "long","field-id": 122}]}}],"default": null,"field_id": 110},{"name": "nan_value_counts","type": ["null",{"type": "array","logicalType": "map","items": {"type": "record","name": "k138_v139","fields": [{"name": "key","type": "int","field-id": 138},{"name": "value","type": "long","field-id": 139}]}}],"default": null,"field_id": 137},{"name": "distinct_counts","type": ["null",{"type": "array","logicalType": "map","items": {"type": "record","name": "k123_v124","fields": [{"name": "key","type": "int","field-id": 123},{"name": "value","type": "long","field-id": 124}]}}],"default": null,"field_id": 111},{"name": "lower_bounds","type": ["null",{"type": "array","logicalType": "map","items": {"type": "record","name": "k126_v127","fields": [{"name": "key","type": "int","field-id": 126},{"name": "value","type": "bytes","field-id": 127}]}}],"default": null,"field_id": 125},{"name": "upper_bounds","type": ["null",{"type": "array","logicalType": "map","items": {"type": "record","name": "k129_v130","fields": [{"name": "key","type": "int","field-id": 129},{"name": "value","type": "bytes","field-id": 130}]}}],"default": null,"field_id": 128},{"name": "key_metadata","type": ["null","bytes"],"default": null,"field_id": 131},{"name": "split_offsets","type": ["null",{"type": "array","items": "long","element-id": 133}],"default": null,"field_id": 132},{"name": "equality_ids","type": ["null",{"type": "array","items": "int","element-id": 136}],"default": null,"field_id": 135},{"name": "sort_order_id","type": ["null","int"],"default": null,"field_id": 140}]}"#);
        r
    }
}

impl ManifestEntry {
    /// The record schema of a manifest entry whose partition tuple has schema
    /// `partition_schema`: status, snapshot id, sequence number and data file.
    pub fn schema(partition_schema: &str) -> (r: String)
        ensures
            r@ == manifest_entry_schema_text(partition_schema@),
    {
        let data_file = DataFile::schema(partition_schema);
        let mut r = String::from_str(r#"{"type": "record","name": "manifest_entry","fields": [{"name": "status","type": "int","field_id": 0},{"name": "snapshot_id","type": ["null","long"],"default": null,"field_id": 1},{"name": "sequence_number","type": ["null","long"],"default": null,"field_id": 3},{"name": "data_file","type": "#);
        r.append(data_file.as_str());
        r.append(r#","field_id": 2}]}"#);
        r
    }

    /// The path of the data file.
    pub fn file_path(&self) -> (r: &str)
        ensures
            r@ == self.data_file.file_path@,
    {
        self.data_file.file_path.as_str()
    }
}

/// Summary of a partition field over a manifest.
#[derive(Debug, PartialEq, Eq, Clone)]
pub struct FieldSummary {
    /// Whether some partition value is null.
    pub contains_null: bool,
    /// Whether some partition value is NaN.
    pub contains_nan: Option<bool>,
    /// Lower bound of the values.
    pub lower_bound: Option<Vec<u8>>,
    /// Upper bound of the values.
    pub upper_bound: Option<Vec<u8>>,
}

/// An entry of a manifest list: a summary of one manifest.
#[derive(Debug, PartialEq, Eq, Clone)]
pub struct ManifestFile {
    /// Location of the manifest.
    pub manifest_path: String,
    /// Length of the manifest in bytes.
    pub manifest_length: i64,
    /// Partition spec the manifest was written with.
    pub partition_spec_id: i32,
    /// Data or delete files.
    pub content: Option<Content>,
    /// Sequence number when the manifest was added.
    pub sequence_number: Option<i64>,
    /// Smallest sequence number of its files.
    pub min_sequence_number: Option<i64>,
    /// Snapshot that added the manifest.
    pub added_snapshot_id: i64,
    /// Number of added files.
    pub added_files_count: Option<i32>,
    /// Number of existing files.
    pub existing_files_count: Option<i32>,
    /// Number of deleted files.
    pub deleted_files_count: Option<i32>,
    /// Rows of added files.
    pub added_rows_count: Option<i64>,
    /// Rows of existing files.
    pub existing_rows_count: Option<i64>,
    /// Rows of deleted files.
    pub deleted_rows_count: Option<i64>,
    /// One summary per partition field.
    pub partitions: Option<Vec<FieldSummary>>,
    /// Key metadata for encryption.
    pub key_metadata: Option<Vec<u8>>,
}

/// The record schema of a manifest list entry.
pub open spec fn manifest_file_schema_text() -> Seq<char> {
    r#"{"type": "record", "name": "manifest_file", "fields": [{"name": "manifest_path", "type": "string", "field-id": 500}, {"name": "manifest_length", "type": "long", "field-id": 501}, {"name": "partition_spec_id", "type": "int", "field-id": 502}, {"name": "content", "type": ["null", "int"], "default": null, "field-id": 517}, {"name": "sequence_number", "type": ["null", "long"], "default": null, "field-id": 515}, {"name": "min_sequence_number", "type": ["null", "long"], "default": null, "field-id": 516}, {"name": "added_snapshot_id", "type": "long", "field-id": 503}, {"name": "added_files_count", "type": ["null", "int"], "default": null, "field-id": 504}, {"name": "existing_files_count", "type": ["null", "int"], "default": null, "field-id": 505}, {"name": "deleted_files_count", "type": ["null", "int"], "default": null, "field-id": 506}, {"name": "added_rows_count", "type": ["null", "long"], "default": null, "field-id": 512}, {"name": "existing_rows_count", "type": ["null", "long"], "default": null, "field-id": 513}, {"name": "deleted_rows_count", "type": ["null", "long"], "default": null, "field-id": 514}, {"name": "partitions", "type": ["null", {"type": "array", "items": {"type": "record", "name": "r508", "fields": [{"name": "contains_null", "type": "boolean", "field-id": 509}, {"name": "contains_nan", "type": ["null", "boolean"], "default": null, "field-id": 518}, {"name": "lower_bound", "type": ["null", "bytes"], "default": null, "field-id": 510}, {"name": "upper_bound", "type": ["null", "bytes"], "default": null, "field-id": 511}]}, "element-id": 508}], "default": null, "field-id": 507}, {"name": "key_metadata", "type": ["null", "bytes"], "default": null, "field-id": 519}]}"#@
}

impl ManifestFile {
    /// The record schema of a manifest list entry: fields 500 to 519 of the format.
    pub fn schema() -> (r: String)
        ensures
            r@ == manifest_file_schema_text(),
    {
        String::from_str(r#"{"type": "record", "name": "manifest_file", "fields": [{"name": "manifest_path", "type": "string", "field-id": 500}, {"name": "manifest_length", "type": "long", "field-id": 501}, {"name": "partition_spec_id", "type": "int", "field-id": 502}, {"name": "content", "type": ["null", "int"], "default": null, "field-id": 517}, {"name": "sequence_number", "type": ["null", "long"], "default": null, "field-id": 515}, {"name": "min_sequence_number", "type": ["null", "long"], "default": null, "field-id": 516}, {"name": "added_snapshot_id", "type": "long", "field-id": 503}, {"name": "added_files_count", "type": ["null", "int"], "default": null, "field-id": 504}, {"name": "existing_files_count", "type": ["null", "int"], "default": null, "field-id": 505}, {"name": "deleted_files_count", "type": ["null", "int"], "default": null, "field-id": 506}, {"name": "added_rows_count", "type": ["null", "long"], "default": null, "field-id": 512}, {"name": "existing_rows_count", "type": ["null", "long"], "default": null, "field-id": 513}, {"name": "deleted_rows_count", "type": ["null", "long"], "default": null, "field-id": 514}, {"name": "partitions", "type": ["null", {"type": "array", "items": {"type": "record", "name": "r508", "fields": [{"name": "contains_null", "type": "boolean", "field-id": 509}, {"name": "contains_nan", "type": ["null", "boolean"], "default": null, "field-id": 518}, {"name": "lower_bound", "type": ["null", "bytes"], "default": null, "field-id": 510}, {"name": "upper_bound", "type": ["null", "bytes"], "default": null, "field-id": 511}]}, "element-id": 508}], "default": null, "field-id": 507}, {"name": "key_metadata", "type": ["null", "bytes"], "default": null, "field-id": 519}]}"#)
    }

    /// The location of the manifest.
    pub fn manifest_path(&self) -> (r: &str)
        ensures
            r@ == self.manifest_path@,
    {
        self.manifest_path.as_str()
    }
}

/// The metadata of a manifest file, read from the key and value block of its container.
#[derive(Debug, PartialEq, Eq, Clone)]
pub struct ManifestMetadata {
    /// The table schema, as JSON.
    pub schema: String,
    /// The id of the schema.
    pub schema_id: Option<String>,
    /// The partition spec, as JSON.
    pub partition_spec: Option<String>,
    /// The id of the partition spec.
    pub partition_spec_id: Option<String>,
    /// The format version.
    pub format_version: Option<String>,
    /// Data or deletes.
    pub content: Option<String>,
}

/// The value of the first entry whose key is `key`.
pub open spec fn lookup(entries: Seq<(String, String)>, key: Seq<char>) -> Option<Seq<char>>
    decreases entries.len(),
{
    if entries.len() == 0 {
        None
    } else if entries[0].0@ == key {
        Some(entries[0].1@)
    } else {
        lookup(entries.drop_first(), key)
    }
}

/// The view of an optional text.
pub open spec fn opt_view(s: Option<String>) -> Option<Seq<char>> {
    match s {
        Some(t) => Some(t@),
        None => None,
    }
}

fn find_value(entries: &Vec<(String, String)>, key: &str) -> (r: Option<String>)
    ensures
        opt_view(r) == lookup(entries@, key@),
{
    let mut i: usize = 0;
    assert(entries@.subrange(0, entries@.len() as int) =~= entries@);
    while i < entries.len()
        invariant
            i <= entries@.len(),
            lookup(entries@, key@) == lookup(entries@.subrange(i as int, entries@.len() as int), key@),
        decreases entries@.len() - i,
    {
        let ghost rest = entries@.subrange(i as int, entries@.len() as int);
        assert(rest.drop_first() =~= entries@.subrange(i + 1, entries@.len() as int));
        if text_eq(entries[i].0.as_str(), key) {
            return Some(entries[i].1.clone());
        }
        i = i + 1;
    }
    None
}

impl ManifestMetadata {
    /// Read the metadata of a manifest from its key and value block, by exact
    /// keys. `schema` is required; the other keys are optional.
    pub fn from_user_metadata(entries: &Vec<(String, String)>) -> (r: Result<ManifestMetadata, IcebergError>)
        ensures
            r is Ok <==> lookup(entries@, "schema"@) is Some,
            r is Ok ==> {
                let m = r->Ok_0;
                &&& Some(m.schema@) == lookup(entries@, "schema"@)
                &&& opt_view(m.schema_id) == lookup(entries@, "schema-id"@)
                &&& opt_view(m.partition_spec) == lookup(entries@, "partition-spec"@)
                &&& opt_view(m.partition_spec_id) == lookup(entries@, "partition-spec-id"@)
                &&& opt_view(m.format_version) == lookup(entries@, "format-version"@)
                &&& opt_view(m.content) == lookup(entries@, "content"@)
            },
            r is Err ==> r->Err_0 is Format,
    {
        let schema = match find_value(entries, "schema") {
            Some(s) => s,
            None => return Err(IcebergError::Format(String::from_str("No schema in manifest metadata."))),
        };
        Ok(ManifestMetadata {
            schema,
            schema_id: find_value(entries, "schema-id"),
            partition_spec: find_value(entries, "partition-spec"),
            partition_spec_id: find_value(entries, "partition-spec-id"),
            format_version: find_value(entries, "format-version"),
            content: find_value(entries, "content"),
        })
    }
}

} // verus!
