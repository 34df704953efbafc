//! The structural metadata of one file: row groups, their column chunks, and
//! the typed statistics that a column chunk may carry.
//!
//! A `MetadataModel` is built once, when the file is opened, and never changed
//! afterwards. The navigation only needs to know how many row groups there are
//! and how many column chunks each of them holds; the statistics are read when
//! a column chunk is shown in detail.

use vstd::prelude::*;

verus! {

/// The on-disk encoding of the values of a column.
#[derive(Debug, Clone, Copy, PartialEq, Eq, Structural, Hash)]
pub enum PhysicalType {
    Boolean,
    Int32,
    Int64,
    Int96,
    Float,
    Double,
    ByteArray,
    /// Byte strings of one fixed length, which the variant carries.
    FixedLenByteArray(usize),
}

/// A name for a physical type that a person can read.
pub trait PhysicalTypeExt {
    /// The characters of the name.
    spec fn label(&self) -> Seq<char>;

    /// The name, in capitals, as the column lists show it.
    fn human_readable(&self) -> (name: &'static str)
        ensures
            name@ == self.label(),
    ;
}

impl PhysicalTypeExt for PhysicalType {
    open spec fn label(&self) -> Seq<char> {
        match *self {
            PhysicalType::Boolean => "BOOLEAN"@,
            PhysicalType::Int32 => "INT32"@,
            PhysicalType::Int64 => "INT64"@,
            PhysicalType::Int96 => "INT96"@,
            PhysicalType::Float => "FLOAT"@,
            PhysicalType::Double => "DOUBLE"@,
            PhysicalType::ByteArray => "BYTEARRAY"@,
            PhysicalType::FixedLenByteArray(_) => "FIXED_LEN_BYTEARRAY"@,
        }
    }

    fn human_readable(&self) -> (name: &'static str) {
        match *self {
            PhysicalType::Boolean => "BOOLEAN",
            PhysicalType::Int32 => "INT32",
            PhysicalType::Int64 => "INT64",
            PhysicalType::Int96 => "INT96",
            PhysicalType::Float => "FLOAT",
            PhysicalType::Double => "DOUBLE",
            PhysicalType::ByteArray => "BYTEARRAY",
            PhysicalType::FixedLenByteArray(_) => "FIXED_LEN_BYTEARRAY",
        }
    }
}

/// A floating-point number as the text of its literal.
///
/// The library never computes with such a number: it stores the text that the
/// reader of the file made of it and shows that text unchanged.
#[derive(Debug, Clone, PartialEq, Eq)]
pub struct FloatLiteral {
    pub text: String,
}

/// Statistics of a column of booleans.
#[derive(Debug, Clone, PartialEq, Eq)]
pub struct BooleanStatistics {
    pub null_count: Option<i64>,
    pub distinct_count: Option<i64>,
    pub max_value: Option<bool>,
    pub min_value: Option<bool>,
}

/// Statistics of a column of fixed-width numbers of type `T`.
#[derive(Debug, Clone, PartialEq, Eq)]
pub struct PrimitiveStatistics<T> {
    pub null_count: Option<i64>,
    pub distinct_count: Option<i64>,
    pub max_value: Option<T>,
    pub min_value: Option<T>,
}

/// Statistics of a column of byte strings of any length.
#[derive(Debug, Clone, PartialEq, Eq)]
pub struct BinaryStatistics {
    pub null_count: Option<i64>,
    pub distinct_count: Option<i64>,
    pub max_value: Option<Vec<u8>>,
    pub min_value: Option<Vec<u8>>,
}

/// Statistics of a column of byte strings of one fixed length.
#[derive(Debug, Clone, PartialEq, Eq)]
pub struct FixedLenStatistics {
    pub null_count: Option<i64>,
    pub distinct_count: Option<i64>,
    pub max_value: Option<Vec<u8>>,
    pub min_value: Option<Vec<u8>>,
}

/// The statistics stored with a column chunk, tagged by the physical type of
/// the values they summarise.
#[derive(Debug, Clone, PartialEq, Eq)]
pub enum Statistics {
    Boolean(BooleanStatistics),
    Int32(PrimitiveStatistics<i32>),
    Int64(PrimitiveStatistics<i64>),
    Int96(PrimitiveStatistics<[u32; 3]>),
    Float(PrimitiveStatistics<FloatLiteral>),
    Double(PrimitiveStatistics<FloatLiteral>),
    ByteArray(BinaryStatistics),
    FixedLenByteArray(FixedLenStatistics),
}

impl Statistics {
    /// Whether statistics of this shape belong to a column of type `declared`.
    pub open spec fn matches_type(&self, declared: PhysicalType) -> bool {
        match (*self, declared) {
            (Statistics::Boolean(_), PhysicalType::Boolean) => true,
            (Statistics::Int32(_), PhysicalType::Int32) => true,
            (Statistics::Int64(_), PhysicalType::Int64) => true,
            (Statistics::Int96(_), PhysicalType::Int96) => true,
            (Statistics::Float(_), PhysicalType::Float) => true,
            (Statistics::Double(_), PhysicalType::Double) => true,
            (Statistics::ByteArray(_), PhysicalType::ByteArray) => true,
            (Statistics::FixedLenByteArray(_), PhysicalType::FixedLenByteArray(_)) => true,
            _ => false,
        }
    }
}

/// The storage and metadata of one column within one row group.
#[derive(Debug, Clone, PartialEq, Eq)]
pub struct ColumnChunk {
    /// The names that lead from the root of the schema to the column.
    pub path_in_schema: Vec<String>,
    pub physical_type: PhysicalType,
    pub raw_statistics: Option<Statistics>,
}

/// A horizontal partition of the file, with one column chunk per column.
#[derive(Debug, Clone, PartialEq, Eq)]
pub struct RowGroup {
    pub columns: Vec<ColumnChunk>,
    pub total_byte_size: i64,
}

/// Everything the browser knows of a file.
#[derive(Debug, Clone, PartialEq, Eq)]
pub struct MetadataModel {
    pub row_groups: Vec<RowGroup>,
}

impl MetadataModel {
    /// How many column chunks each row group holds, in the order of the row
    /// groups. This is all that the navigation reads of a model.
    pub open spec fn column_counts(&self) -> Seq<nat> {
        Seq::new(self.row_groups@.len(), |i: int| self.row_groups@[i].columns@.len())
    }

    /// A model that the browser accepts: it has a row group, and no row group
    /// is without columns.
    pub open spec fn well_formed(&self) -> bool {
        shape_is_browsable(self.column_counts())
    }

    /// The number of row groups.
    pub fn num_row_groups(&self) -> (count: usize)
        ensures
            count == self.column_counts().len(),
    {
        self.row_groups.len()
    }

    /// The number of column chunks of the row group at `row_group`.
    pub fn num_column_chunks(&self, row_group: usize) -> (count: usize)
        requires
            row_group < self.column_counts().len(),
        ensures
            count == self.column_counts()[row_group as int],
    {
        self.row_groups[row_group].columns.len()
    }

    /// Whether the browser accepts the model.
    pub fn is_well_formed(&self) -> (accepted: bool)
        ensures
            accepted == self.well_formed(),
    {
        if self.row_groups.len() == 0 {
            return false;
        }
        let mut i: usize = 0;
        while i < self.row_groups.len()
            invariant
                i <= self.row_groups.len(),
                forall|k: int| 0 <= k < i ==> #[trigger] self.column_counts()[k] > 0,
            decreases self.row_groups.len() - i,
        {
            if self.row_groups[i].columns.len() == 0 {
                assert(self.column_counts()[i as int] == 0);
                return false;
            }
            i += 1;
        }
        assert forall|k: int| 0 <= k < self.column_counts().len() implies 0
            < #[trigger] self.column_counts()[k] <= usize::MAX by {
            assert(self.row_groups@[k].columns.len() == self.column_counts()[k]);
        }
        true
    }
}

/// The shapes that can be browsed: at least one row group, and at least one
/// column in each. `counts[i]` is the number of columns of row group `i`.
/// Every count is one that a list in memory can have.
pub open spec fn shape_is_browsable(counts: Seq<nat>) -> bool {
    &&& 0 < counts.len() <= usize::MAX
    &&& forall|i: int| 0 <= i < counts.len() ==> 0 < #[trigger] counts[i] <= usize::MAX
}

} // verus!
