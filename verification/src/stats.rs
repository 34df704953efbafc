//! One printable record for the statistics of any column chunk.
//!
//! The statistics of a column chunk come in a shape that depends on the
//! physical type of the column. `stats` maps every shape to the same record of
//! four optional fields, so that whoever shows them needs no case distinction.
//! The mapping never fails: statistics that are missing, that belong to another
//! physical type than the column declares, or that summarise 96-bit integers
//! give the record in which every field is absent.

use vstd::prelude::*;
use vstd::utf8::{decode_utf8, valid_utf8};
use crate::metadata::{
    BinaryStatistics, BooleanStatistics, ColumnChunk, FixedLenStatistics, FloatLiteral,
    PhysicalType, PrimitiveStatistics, Statistics,
};
use crate::text::{boolean_string, boolean_text, decimal, decimal_string};

verus! {

/// The statistics of a column chunk in printable form.
#[derive(Debug, Clone, PartialEq, Eq)]
pub struct HumanFriendlyStats {
    pub min: Option<String>,
    pub max: Option<String>,
    pub null_count: Option<i64>,
    pub distinct_values: Option<i64>,
}

/// What a `HumanFriendlyStats` holds, with the texts as sequences of
/// characters.
pub struct StatSnapshot {
    pub min: Option<Seq<char>>,
    pub max: Option<Seq<char>>,
    pub null_count: Option<i64>,
    pub distinct_count: Option<i64>,
}

impl StatSnapshot {
    /// The record in which every field is absent.
    pub open spec fn absent() -> StatSnapshot {
        StatSnapshot { min: None, max: None, null_count: None, distinct_count: None }
    }
}

impl View for HumanFriendlyStats {
    type V = StatSnapshot;

    open spec fn view(&self) -> StatSnapshot {
        StatSnapshot {
            min: match self.min {
                Some(text) => Some(text@),
                None => None,
            },
            max: match self.max {
                Some(text) => Some(text@),
                None => None,
            },
            null_count: self.null_count,
            distinct_count: self.distinct_values,
        }
    }
}

impl Default for HumanFriendlyStats {
    /// The record in which every field is absent.
    fn default() -> (stats: HumanFriendlyStats)
        ensures
            stats@ == StatSnapshot::absent(),
    {
        HumanFriendlyStats { min: None, max: None, null_count: None, distinct_values: None }
    }
}

/// A fixed-width value that can be shown as the literal that denotes it.
pub trait NativeType {
    /// The characters of the literal.
    spec fn literal(&self) -> Seq<char>;

    /// The literal as a string.
    fn debug_string(&self) -> (text: String)
        ensures
            text@ == self.literal(),
    ;
}

impl NativeType for i32 {
    open spec fn literal(&self) -> Seq<char> {
        decimal(*self as int)
    }

    fn debug_string(&self) -> (text: String) {
        decimal_string(*self as i64)
    }
}

impl NativeType for i64 {
    open spec fn literal(&self) -> Seq<char> {
        decimal(*self as int)
    }

    fn debug_string(&self) -> (text: String) {
        decimal_string(*self)
    }
}

impl NativeType for FloatLiteral {
    open spec fn literal(&self) -> Seq<char> {
        self.text@
    }

    fn debug_string(&self) -> (text: String) {
        self.text.clone()
    }
}

/// The literal of a value that may be missing.
pub open spec fn optional_literal<T: NativeType>(value: Option<T>) -> Option<Seq<char>> {
    match value {
        Some(v) => Some(v.literal()),
        None => None,
    }
}

/// The text of a boolean that may be missing.
pub open spec fn optional_boolean_text(value: Option<bool>) -> Option<Seq<char>> {
    match value {
        Some(v) => Some(boolean_text(v)),
        None => None,
    }
}

/// The text of a byte string: the characters it encodes where it is valid
/// UTF-8, and the three letters `UNK` where it is not.
pub open spec fn utf8_or_unknown(bytes: Seq<u8>) -> Seq<char> {
    if valid_utf8(bytes) {
        decode_utf8(bytes)
    } else {
        "UNK"@
    }
}

/// The text of a byte string that may be missing.
pub open spec fn optional_utf8_text(value: Option<Vec<u8>>) -> Option<Seq<char>> {
    match value {
        Some(bytes) => Some(utf8_or_unknown(bytes@)),
        None => None,
    }
}

/// The record for statistics of fixed-width numbers: literals for the
/// extremes, the null count as stored, no distinct count.
pub open spec fn primitive_snapshot<T: NativeType>(stats: PrimitiveStatistics<T>) -> StatSnapshot {
    StatSnapshot {
        min: optional_literal(stats.min_value),
        max: optional_literal(stats.max_value),
        null_count: stats.null_count,
        distinct_count: None,
    }
}

/// The record for statistics of booleans: `true` or `false` for the extremes,
/// the null count as stored, no distinct count.
pub open spec fn boolean_snapshot(stats: BooleanStatistics) -> StatSnapshot {
    StatSnapshot {
        min: optional_boolean_text(stats.min_value),
        max: optional_boolean_text(stats.max_value),
        null_count: stats.null_count,
        distinct_count: None,
    }
}

/// The record for statistics of byte strings of any length: decoded text for
/// the extremes, both counts as stored.
pub open spec fn binary_snapshot(stats: BinaryStatistics) -> StatSnapshot {
    StatSnapshot {
        min: optional_utf8_text(stats.min_value),
        max: optional_utf8_text(stats.max_value),
        null_count: stats.null_count,
        distinct_count: stats.distinct_count,
    }
}

/// The record for statistics of byte strings of one fixed length: decoded text
/// for the extremes, both counts as stored.
pub open spec fn fixed_len_snapshot(stats: FixedLenStatistics) -> StatSnapshot {
    StatSnapshot {
        min: optional_utf8_text(stats.min_value),
        max: optional_utf8_text(stats.max_value),
        null_count: stats.null_count,
        distinct_count: stats.distinct_count,
    }
}

/// The record for statistics of any shape, taken by themselves.
pub open spec fn statistics_snapshot(stats: Statistics) -> StatSnapshot {
    match stats {
        Statistics::Boolean(s) => boolean_snapshot(s),
        Statistics::Int32(s) => primitive_snapshot(s),
        Statistics::Int64(s) => primitive_snapshot(s),
        Statistics::Int96(_) => StatSnapshot::absent(),
        Statistics::Float(s) => primitive_snapshot(s),
        Statistics::Double(s) => primitive_snapshot(s),
        Statistics::ByteArray(s) => binary_snapshot(s),
        Statistics::FixedLenByteArray(s) => fixed_len_snapshot(s),
    }
}

/// The record for a column chunk: that of its statistics where it has some
/// and they are of the shape that its physical type asks for, and otherwise
/// the record in which every field is absent.
pub open spec fn chunk_snapshot(chunk: ColumnChunk) -> StatSnapshot {
    match chunk.raw_statistics {
        Some(stats) => if stats.matches_type(chunk.physical_type) {
            statistics_snapshot(stats)
        } else {
            StatSnapshot::absent()
        },
        None => StatSnapshot::absent(),
    }
}

/// `String::from_utf8` of the standard library: the string that `bytes`
/// encode where they are valid UTF-8, and nothing where they are not.
#[verifier::external_body]
fn string_from_utf8(bytes: Vec<u8>) -> (text: Option<String>)
    ensures
        text is Some <==> valid_utf8(bytes@),
        text matches Some(s) ==> s@ == decode_utf8(bytes@),
{
    String::from_utf8(bytes).ok()
}

/// The text of a byte string as a string of its own.
pub fn utf8_or_unknown_string(bytes: &Vec<u8>) -> (text: String)
    ensures
        text@ == utf8_or_unknown(bytes@),
{
    match string_from_utf8(bytes.clone()) {
        Some(text) => text,
        None => String::from_str("UNK"),
    }
}

fn literal_of<T: NativeType>(value: &Option<T>) -> (text: Option<String>)
    ensures
        text is Some == value is Some,
        text matches Some(t) ==> Some(t@) == optional_literal(*value),
{
    match value {
        Some(v) => Some(v.debug_string()),
        None => None,
    }
}

fn boolean_text_of(value: &Option<bool>) -> (text: Option<String>)
    ensures
        text is Some == value is Some,
        text matches Some(t) ==> Some(t@) == optional_boolean_text(*value),
{
    match value {
        Some(v) => Some(boolean_string(*v)),
        None => None,
    }
}

fn utf8_text_of(value: &Option<Vec<u8>>) -> (text: Option<String>)
    ensures
        text is Some == value is Some,
        text matches Some(t) ==> Some(t@) == optional_utf8_text(*value),
{
    match value {
        Some(bytes) => Some(utf8_or_unknown_string(bytes)),
        None => None,
    }
}

// A record holds strings, which specifications cannot build, so the four
// conversions below are not given as spec functions from statistics to
// records: what each returns is stated by the `ensures` of its `from`, over
// the view of the record.
impl<T: NativeType> vstd::std_specs::convert::FromSpecImpl<&PrimitiveStatistics<T>> for HumanFriendlyStats {
    open spec fn obeys_from_spec() -> bool {
        false
    }

    open spec fn from_spec(value: &PrimitiveStatistics<T>) -> HumanFriendlyStats {
        arbitrary()
    }
}

impl<T: NativeType> From<&PrimitiveStatistics<T>> for HumanFriendlyStats {
    /// Shows the extremes as literals, keeps the null count, and leaves the
    /// distinct count out.
    fn from(value: &PrimitiveStatistics<T>) -> (stats: HumanFriendlyStats)
        ensures
            stats@ == primitive_snapshot(*value),
    {
        HumanFriendlyStats {
            min: literal_of(&value.min_value),
            max: literal_of(&value.max_value),
            null_count: value.null_count,
            distinct_values: None,
        }
    }
}

impl vstd::std_specs::convert::FromSpecImpl<&BooleanStatistics> for HumanFriendlyStats {
    open spec fn obeys_from_spec() -> bool {
        false
    }

    open spec fn from_spec(value: &BooleanStatistics) -> HumanFriendlyStats {
        arbitrary()
    }
}

impl From<&BooleanStatistics> for HumanFriendlyStats {
    /// Shows the extremes as `true` or `false`, keeps the null count, and
    /// leaves the distinct count out.
    fn from(value: &BooleanStatistics) -> (stats: HumanFriendlyStats)
        ensures
            stats@ == boolean_snapshot(*value),
    {
        HumanFriendlyStats {
            min: boolean_text_of(&value.min_value),
            max: boolean_text_of(&value.max_value),
            null_count: value.null_count,
            distinct_values: None,
        }
    }
}

impl vstd::std_specs::convert::FromSpecImpl<&BinaryStatistics> for HumanFriendlyStats {
    open spec fn obeys_from_spec() -> bool {
        false
    }

    open spec fn from_spec(value: &BinaryStatistics) -> HumanFriendlyStats {
        arbitrary()
    }
}

impl From<&BinaryStatistics> for HumanFriendlyStats {
    /// Shows the extremes as the text they encode, and keeps both counts.
    fn from(value: &BinaryStatistics) -> (stats: HumanFriendlyStats)
        ensures
            stats@ == binary_snapshot(*value),
    {
        HumanFriendlyStats {
            min: utf8_text_of(&value.min_value),
            max: utf8_text_of(&value.max_value),
            null_count: value.null_count,
            distinct_values: value.distinct_count,
        }
    }
}

impl vstd::std_specs::convert::FromSpecImpl<&FixedLenStatistics> for HumanFriendlyStats {
    open spec fn obeys_from_spec() -> bool {
        false
    }

    open spec fn from_spec(value: &FixedLenStatistics) -> HumanFriendlyStats {
        arbitrary()
    }
}

impl From<&FixedLenStatistics> for HumanFriendlyStats {
    /// Shows the extremes as the text they encode, and keeps both counts.
    fn from(value: &FixedLenStatistics) -> (stats: HumanFriendlyStats)
        ensures
            stats@ == fixed_len_snapshot(*value),
    {
        HumanFriendlyStats {
            min: utf8_text_of(&value.min_value),
            max: utf8_text_of(&value.max_value),
            null_count: value.null_count,
            distinct_values: value.distinct_count,
        }
    }
}

/// The printable statistics of a column chunk.
pub trait ColumnChunkMetaDataExt {
    /// The record that `stats` returns.
    spec fn snapshot(self) -> StatSnapshot;

    /// Maps the statistics of the column chunk to one printable record.
    fn stats(self) -> (stats: HumanFriendlyStats)
        ensures
            stats@ == self.snapshot(),
    ;
}

impl ColumnChunkMetaDataExt for &ColumnChunk {
    open spec fn snapshot(self) -> StatSnapshot {
        chunk_snapshot(*self)
    }

    fn stats(self) -> (stats: HumanFriendlyStats) {
        match &self.raw_statistics {
            None => HumanFriendlyStats::default(),
            Some(raw) => match (self.physical_type, raw) {
                (PhysicalType::Boolean, Statistics::Boolean(s)) => HumanFriendlyStats::from(s),
                (PhysicalType::Int32, Statistics::Int32(s)) => HumanFriendlyStats::from(s),
                (PhysicalType::Int64, Statistics::Int64(s)) => HumanFriendlyStats::from(s),
                (PhysicalType::Float, Statistics::Float(s)) => HumanFriendlyStats::from(s),
                (PhysicalType::Double, Statistics::Double(s)) => HumanFriendlyStats::from(s),
                (PhysicalType::ByteArray, Statistics::ByteArray(s)) => HumanFriendlyStats::from(s),
                (PhysicalType::FixedLenByteArray(_), Statistics::FixedLenByteArray(s)) => {
                    HumanFriendlyStats::from(s)
                },
                _ => HumanFriendlyStats::default(),
            },
        }
    }
}

/// A column chunk without statistics projects to the record in which every
/// field is absent.
pub proof fn lemma_missing_statistics_project_absent(chunk: ColumnChunk)
    requires
        chunk.raw_statistics is None,
    ensures
        chunk_snapshot(chunk) == StatSnapshot::absent(),
{
}

/// A column chunk of 96-bit integers projects to the record in which every
/// field is absent, whatever statistics are stored with it.
pub proof fn lemma_int96_projects_absent(chunk: ColumnChunk)
    requires
        chunk.physical_type is Int96,
    ensures
        chunk_snapshot(chunk) == StatSnapshot::absent(),
{
}

/// Statistics of another shape than the physical type of the column asks for
/// project to the record in which every field is absent.
pub proof fn lemma_mismatch_projects_absent(chunk: ColumnChunk)
    requires
        chunk.raw_statistics matches Some(stats) && !stats.matches_type(chunk.physical_type),
    ensures
        chunk_snapshot(chunk) == StatSnapshot::absent(),
{
}

/// Only columns of byte strings carry a distinct count into the record.
pub proof fn lemma_distinct_count_only_for_byte_strings(chunk: ColumnChunk)
    requires
        !(chunk.physical_type is ByteArray),
        !(chunk.physical_type is FixedLenByteArray),
    ensures
        chunk_snapshot(chunk).distinct_count is None,
{
}

/// An extreme of a byte-string column that is not valid UTF-8 is shown as
/// `UNK`; one that is valid is shown as the text it encodes.
pub proof fn lemma_byte_string_fallback(bytes: Seq<u8>)
    ensures
        !valid_utf8(bytes) ==> utf8_or_unknown(bytes) == "UNK"@,
        valid_utf8(bytes) ==> utf8_or_unknown(bytes) == decode_utf8(bytes),
{
}

} // verus!
