//! What the panes show, as text.
//!
//! The functions of this module prepare the names, labels and lines that the
//! panes hold. How they are laid out, coloured and drawn is left to the caller.

use vstd::prelude::*;
use crate::metadata::{ColumnChunk, PhysicalType, RowGroup};
use crate::stats::{chunk_snapshot, ColumnChunkMetaDataExt, HumanFriendlyStats, StatSnapshot};
use crate::text::{count_string, decimal, decimal_string, join_strings, joined, texts_of};

verus! {

/// The name of a column: the names on its path in the schema, separated by
/// dots.
pub open spec fn dotted_name(chunk: ColumnChunk) -> Seq<char> {
    joined(texts_of(chunk.path_in_schema@), "."@)
}

/// What the list of column chunks shows of one of them.
#[derive(Debug, Clone, PartialEq, Eq)]
pub struct ColumnChunkSimpleView {
    pub name: String,
    pub physical_type: PhysicalType,
}

impl ColumnChunkSimpleView {
    /// The entry of the list for `chunk`: its dotted name and its physical
    /// type.
    pub fn from(chunk: &ColumnChunk) -> (view: ColumnChunkSimpleView)
        ensures
            view.name@ == dotted_name(*chunk),
            view.physical_type == chunk.physical_type,
    {
        ColumnChunkSimpleView {
            name: join_strings(&chunk.path_in_schema, "."),
            physical_type: chunk.physical_type,
        }
    }
}

/// What the detail pane shows of a column chunk.
#[derive(Debug, Clone, PartialEq, Eq)]
pub struct ColumnChunkDetailView {
    pub name: String,
    pub physical_type: PhysicalType,
    pub stats: HumanFriendlyStats,
}

impl ColumnChunkDetailView {
    /// The detail of `chunk`: its dotted name, its physical type, and its
    /// statistics in printable form.
    pub fn from(chunk: &ColumnChunk) -> (view: ColumnChunkDetailView)
        ensures
            view.name@ == dotted_name(*chunk),
            view.physical_type == chunk.physical_type,
            view.stats@ == chunk_snapshot(*chunk),
    {
        ColumnChunkDetailView {
            name: join_strings(&chunk.path_in_schema, "."),
            physical_type: chunk.physical_type,
            stats: chunk.stats(),
        }
    }
}

/// The entries of the list of column chunks of a row group, in the order of
/// its columns.
pub fn column_chunk_entries(row_group: &RowGroup) -> (entries: Vec<ColumnChunkSimpleView>)
    ensures
        entries@.len() == row_group.columns@.len(),
        forall|i: int|
            0 <= i < entries@.len() ==> {
                &&& (#[trigger] entries@[i]).name@ == dotted_name(row_group.columns@[i])
                &&& entries@[i].physical_type == row_group.columns@[i].physical_type
            },
{
    let mut entries: Vec<ColumnChunkSimpleView> = Vec::new();
    let mut i: usize = 0;
    while i < row_group.columns.len()
        invariant
            i <= row_group.columns@.len(),
            entries@.len() == i,
            forall|k: int|
                0 <= k < i ==> {
                    &&& (#[trigger] entries@[k]).name@ == dotted_name(row_group.columns@[k])
                    &&& entries@[k].physical_type == row_group.columns@[k].physical_type
                },
        decreases row_group.columns@.len() - i,
    {
        entries.push(ColumnChunkSimpleView::from(&row_group.columns[i]));
        i += 1;
    }
    entries
}

/// The label of the row group at `index` in the list of row groups.
pub open spec fn row_group_label(index: int) -> Seq<char> {
    "Row Group "@ + decimal(index)
}

/// The labels of the list of row groups of a file with `count` of them.
pub fn row_group_labels(count: usize) -> (labels: Vec<String>)
    ensures
        texts_of(labels@) == Seq::new(count as nat, |i: int| row_group_label(i)),
{
    let mut labels: Vec<String> = Vec::new();
    let mut i: usize = 0;
    while i < count
        invariant
            i <= count,
            labels@.len() == i,
            forall|k: int| 0 <= k < i ==> (#[trigger] labels@[k])@ == row_group_label(k),
        decreases count - i,
    {
        let mut label = String::from_str("Row Group ");
        label.append(count_string(i).as_str());
        labels.push(label);
        i += 1;
    }
    assert(texts_of(labels@) =~= Seq::new(count as nat, |i: int| row_group_label(i)));
    labels
}

/// A text that may be missing, with `undefined` in its place where it is.
pub open spec fn text_or_undefined(text: Option<Seq<char>>) -> Seq<char> {
    match text {
        Some(t) => t,
        None => "undefined"@,
    }
}

/// A count that may be missing, with `-1` in its place where it is.
pub open spec fn count_or_minus_one(count: Option<i64>) -> int {
    match count {
        Some(c) => c as int,
        None => -1,
    }
}

/// The four lines of the detail pane for a record of statistics: the minimum,
/// the maximum, the number of nulls, and the number of distinct values.
pub open spec fn detail_lines_of(stats: StatSnapshot) -> Seq<Seq<char>> {
    seq![
        "min = "@ + text_or_undefined(stats.min),
        "max = "@ + text_or_undefined(stats.max),
        "nulls = "@ + decimal(count_or_minus_one(stats.null_count)),
        "distinct_values = "@ + decimal(count_or_minus_one(stats.distinct_count)),
    ]
}

fn labelled_text(label: &str, text: &Option<String>) -> (line: String)
    ensures
        line@ == label@ + text_or_undefined(
            match *text {
                Some(t) => Some(t@),
                None => None,
            },
        ),
{
    let mut line = String::from_str(label);
    match text {
        Some(t) => line.append(t.as_str()),
        None => line.append("undefined"),
    }
    line
}

fn labelled_count(label: &str, count: Option<i64>) -> (line: String)
    ensures
        line@ == label@ + decimal(count_or_minus_one(count)),
{
    let mut line = String::from_str(label);
    let shown: i64 = match count {
        Some(c) => c,
        None => -1,
    };
    line.append(decimal_string(shown).as_str());
    line
}

/// The four lines of the detail pane for `stats`.
pub fn detail_lines(stats: &HumanFriendlyStats) -> (lines: Vec<String>)
    ensures
        texts_of(lines@) == detail_lines_of(stats@),
{
    let mut lines: Vec<String> = Vec::new();
    lines.push(labelled_text("min = ", &stats.min));
    lines.push(labelled_text("max = ", &stats.max));
    lines.push(labelled_count("nulls = ", stats.null_count));
    lines.push(labelled_count("distinct_values = ", stats.distinct_values));
    assert(texts_of(lines@) =~= detail_lines_of(stats@));
    lines
}

} // verus!
