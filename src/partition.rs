//! Partition specs and sort orders.

use vstd::prelude::*;
use crate::types::Transform;

verus! {

/// A field of a partition spec: a transform of a source column.
#[derive(Debug, PartialEq, Eq, Clone)]
pub struct PartitionField {
    /// The source column id in the table's schema.
    pub source_id: i32,
    /// The partition field id.
    pub field_id: i32,
    /// The partition name.
    pub name: String,
    /// The transform applied to the source column.
    pub transform: Transform,
}

/// How partition values are derived from data fields.
#[derive(Debug, PartialEq, Eq, Clone)]
pub struct PartitionSpec {
    /// Identifier of the spec.
    pub spec_id: i32,
    /// The fields of the spec.
    pub fields: Vec<PartitionField>,
}

/// Sort direction.
#[derive(Debug, PartialEq, Eq, Clone, Copy, Structural)]
pub enum SortDirection {
    /// Ascending.
    Ascending,
    /// Descending.
    Descending,
}

/// Placement of nulls in a sort.
#[derive(Debug, PartialEq, Eq, Clone, Copy, Structural)]
pub enum NullOrder {
    /// Nulls first.
    First,
    /// Nulls last.
    Last,
}

/// A field of a sort order.
#[derive(Debug, PartialEq, Eq, Clone, Copy, Structural)]
pub struct SortField {
    /// The source column id.
    pub source_id: i32,
    /// The transform applied before sorting.
    pub transform: Transform,
    /// The direction.
    pub direction: SortDirection,
    /// Where nulls go.
    pub null_order: NullOrder,
}

/// A sort order of a table.
#[derive(Debug, PartialEq, Eq, Clone)]
pub struct SortOrder {
    /// Identifier of the order.
    pub order_id: i32,
    /// The fields, most significant first.
    pub fields: Vec<SortField>,
}

} // verus!
