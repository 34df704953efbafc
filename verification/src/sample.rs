//! A short sample of the values of one column chunk, as one line of text.
//!
//! The caller decodes up to `SAMPLE_LIMIT` records of the chunk and hands over
//! what came out; this module turns it into the line that the detail pane
//! shows.

use vstd::prelude::*;
use crate::metadata::FloatLiteral;
use crate::text::{
    boolean_string, boolean_text, count_string, decimal, decimal_string, join_strings, joined,
    texts_of,
};

verus! {

/// How many records a sample asks for, and how many values it shows at most.
pub const SAMPLE_LIMIT: usize = 10;

/// The non-null values decoded from a column chunk, by physical type.
#[derive(Debug, Clone, PartialEq, Eq)]
pub enum ColumnValues {
    Boolean(Vec<bool>),
    Int32(Vec<i32>),
    Int64(Vec<i64>),
    /// Values of 96-bit integers are not decoded.
    Int96,
    Float(Vec<FloatLiteral>),
    Double(Vec<FloatLiteral>),
    ByteArray(Vec<Vec<u8>>),
    FixedLenByteArray(Vec<Vec<u8>>),
}

/// What one read of a column chunk produced.
#[derive(Debug, Clone, PartialEq, Eq)]
pub struct ColumnRecords {
    /// The number of complete records that were read.
    pub records: usize,
    /// The number of values among them that are not null.
    pub non_null: usize,
    /// The values that are not null, in the order in which they were read.
    pub values: ColumnValues,
}

/// The text of a byte string in a sample: its bytes as decimal numbers,
/// separated by a comma and a space, between square brackets.
pub open spec fn byte_list_text(bytes: Seq<u8>) -> Seq<char> {
    "["@ + joined(Seq::new(bytes.len(), |i: int| decimal(bytes[i] as int)), ", "@) + "]"@
}

/// A string as the debug formatting of the standard library shows it: between
/// double quotes, with the characters that cannot stand there escaped.
pub uninterp spec fn quoted_text(text: Seq<char>) -> Seq<char>;

impl ColumnValues {
    /// The number of values.
    pub open spec fn count(&self) -> nat {
        match *self {
            ColumnValues::Boolean(v) => v@.len(),
            ColumnValues::Int32(v) => v@.len(),
            ColumnValues::Int64(v) => v@.len(),
            ColumnValues::Int96 => 0,
            ColumnValues::Float(v) => v@.len(),
            ColumnValues::Double(v) => v@.len(),
            ColumnValues::ByteArray(v) => v@.len(),
            ColumnValues::FixedLenByteArray(v) => v@.len(),
        }
    }

    /// The text of the value at position `i`.
    pub open spec fn text_at(&self, i: int) -> Seq<char>
        recommends
            0 <= i < self.count(),
    {
        match *self {
            ColumnValues::Boolean(v) => boolean_text(v@[i]),
            ColumnValues::Int32(v) => decimal(v@[i] as int),
            ColumnValues::Int64(v) => decimal(v@[i] as int),
            ColumnValues::Int96 => Seq::empty(),
            ColumnValues::Float(v) => v@[i].text@,
            ColumnValues::Double(v) => v@[i].text@,
            ColumnValues::ByteArray(v) => byte_list_text(v@[i]@),
            ColumnValues::FixedLenByteArray(v) => byte_list_text(v@[i]@),
        }
    }

    /// The texts of the values that a sample shows: those of the first
    /// `SAMPLE_LIMIT` values, or of all where there are fewer.
    pub open spec fn sample_texts(&self) -> Seq<Seq<char>> {
        Seq::new(
            if self.count() <= SAMPLE_LIMIT { self.count() } else { SAMPLE_LIMIT as nat },
            |i: int| self.text_at(i),
        )
    }

    fn len(&self) -> (count: usize)
        ensures
            count == self.count(),
    {
        match self {
            ColumnValues::Boolean(v) => v.len(),
            ColumnValues::Int32(v) => v.len(),
            ColumnValues::Int64(v) => v.len(),
            ColumnValues::Int96 => 0,
            ColumnValues::Float(v) => v.len(),
            ColumnValues::Double(v) => v.len(),
            ColumnValues::ByteArray(v) => v.len(),
            ColumnValues::FixedLenByteArray(v) => v.len(),
        }
    }

    fn text_of(&self, i: usize) -> (text: String)
        requires
            i < self.count(),
        ensures
            text@ == self.text_at(i as int),
    {
        match self {
            ColumnValues::Boolean(v) => boolean_string(v[i]),
            ColumnValues::Int32(v) => decimal_string(v[i] as i64),
            ColumnValues::Int64(v) => decimal_string(v[i]),
            ColumnValues::Int96 => String::new(),
            ColumnValues::Float(v) => v[i].text.clone(),
            ColumnValues::Double(v) => v[i].text.clone(),
            ColumnValues::ByteArray(v) => byte_array_string(&v[i]),
            ColumnValues::FixedLenByteArray(v) => fixed_len_byte_array_string(&v[i]),
        }
    }

    /// The texts of the values that a sample shows.
    pub fn sample_strings(&self) -> (texts: Vec<String>)
        ensures
            texts_of(texts@) == self.sample_texts(),
    {
        let count = self.len();
        let shown = if count <= SAMPLE_LIMIT { count } else { SAMPLE_LIMIT };
        let mut texts: Vec<String> = Vec::new();
        let mut i: usize = 0;
        while i < shown
            invariant
                i <= shown <= self.count(),
                texts@.len() == i,
                forall|k: int| 0 <= k < i ==> (#[trigger] texts@[k])@ == self.text_at(k),
            decreases shown - i,
        {
            let text = self.text_of(i);
            texts.push(text);
            i += 1;
        }
        assert(texts_of(texts@) =~= self.sample_texts());
        texts
    }
}

/// `Display` of `parquet::data_type::ByteArray`, through `to_string`: the debug
/// formatting of the slice of its bytes, which is a list of decimal numbers.
/// The byte array is made from a copy of `bytes`, so its data is set.
#[verifier::external_body]
fn byte_array_string(bytes: &Vec<u8>) -> (text: String)
    ensures
        text@ == byte_list_text(bytes@),
{
    ::parquet::data_type::ByteArray::from(bytes.clone()).to_string()
}

/// `Display` of `parquet::data_type::FixedLenByteArray`, through `to_string`:
/// it hands on to the `Display` of the byte array inside, so the text is the
/// same list of decimal numbers.
#[verifier::external_body]
fn fixed_len_byte_array_string(bytes: &Vec<u8>) -> (text: String)
    ensures
        text@ == byte_list_text(bytes@),
{
    ::parquet::data_type::FixedLenByteArray::from(bytes.clone()).to_string()
}

/// The debug formatting of a string slice by the standard library
/// (`format!("{:?}", text)`). The result depends on the characters of `text`
/// alone.
#[verifier::external_body]
fn quote(text: &str) -> (quoted: String)
    ensures
        quoted@ == quoted_text(text@),
{
    format!("{:?}", text)
}

/// Each of `texts` between quotes.
pub open spec fn quoted_texts(texts: Seq<Seq<char>>) -> Seq<Seq<char>> {
    Seq::new(texts.len(), |i: int| quoted_text(texts[i]))
}

/// Puts each of `texts` between quotes, as a list of strings is shown.
pub fn quote_all(texts: &Vec<String>) -> (quoted: Vec<String>)
    ensures
        texts_of(quoted@) == quoted_texts(texts_of(texts@)),
{
    let mut quoted: Vec<String> = Vec::new();
    let mut i: usize = 0;
    while i < texts.len()
        invariant
            i <= texts.len(),
            quoted@.len() == i,
            forall|k: int| 0 <= k < i ==> (#[trigger] quoted@[k])@ == quoted_text(texts@[k]@),
        decreases texts.len() - i,
    {
        let item = quote(texts[i].as_str());
        quoted.push(item);
        i += 1;
    }
    assert(texts_of(quoted@) =~= quoted_texts(texts_of(texts@)));
    quoted
}

/// The line for a sample: the two counts, then the items between square
/// brackets, separated by a comma and a space.
pub open spec fn sample_line(records: nat, non_null: nat, items: Seq<Seq<char>>) -> Seq<char> {
    "count: "@ + decimal(records as int) + ", non-null: "@ + decimal(non_null as int)
        + " sample: "@ + "["@ + joined(items, ", "@) + "]"@
}

/// The line that `sample_column` returns for `batch`.
pub open spec fn sample_column_text(batch: ColumnRecords) -> Seq<char> {
    if batch.values is Int96 {
        "INT96 sampling not supported"@
    } else {
        sample_line(
            batch.records as nat,
            batch.non_null as nat,
            quoted_texts(batch.values.sample_texts()),
        )
    }
}

/// Builds the line for a sample from the two counts and the items as they are
/// to be shown.
pub fn format_sample(records: usize, non_null: usize, items: &Vec<String>) -> (line: String)
    ensures
        line@ == sample_line(records as nat, non_null as nat, texts_of(items@)),
{
    let mut line = String::from_str("count: ");
    line.append(count_string(records).as_str());
    line.append(", non-null: ");
    line.append(count_string(non_null).as_str());
    line.append(" sample: ");
    line.append("[");
    line.append(join_strings(items, ", ").as_str());
    line.append("]");
    line
}

/// Describes a sample of a column chunk in one line: how many records were
/// read, how many of their values are not null, and the first values, each as
/// text between quotes. For a column of 96-bit integers the line only says that
/// sampling is not supported.
pub fn sample_column(batch: &ColumnRecords) -> (line: String)
    ensures
        line@ == sample_column_text(*batch),
{
    match batch.values {
        ColumnValues::Int96 => String::from_str("INT96 sampling not supported"),
        _ => {
            let texts = batch.values.sample_strings();
            let items = quote_all(&texts);
            format_sample(batch.records, batch.non_null, &items)
        },
    }
}

} // verus!
