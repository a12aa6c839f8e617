//! Data carried through the sentiment pipeline, and the Arrow schema of its ticks.
use vstd::prelude::*;

use arrow::datatypes::{DataType, Field, Schema};
use std::sync::Arc;

verus! {

/// Raw incoming text data from social platforms.
#[derive(Debug, Clone)]
pub struct RawMention {
    pub id: String,
    /// "reddit", "stocktwits", etc.
    pub source: String,
    pub ticker: String,
    pub text: String,
    /// Unix timestamp.
    pub timestamp: i64,
    /// Upvotes, retweets, etc.
    pub engagement: i32,
}

/// The Arrow data types that the tick schema uses.
#[derive(Debug, Clone, Copy, PartialEq, Eq, Structural)]
pub enum ColumnType {
    /// `DataType::Utf8`.
    Utf8,
    /// `DataType::Int64`.
    Int64,
    /// `DataType::Float64`.
    Float64,
}

/// An Arrow schema field of `arrow::datatypes`; opaque here.
#[verifier::external_type_specification]
#[verifier::external_body]
pub struct ExField(Field);

/// An Arrow schema of `arrow::datatypes`; opaque here.
#[verifier::external_type_specification]
#[verifier::external_body]
pub struct ExSchema(Schema);

/// What `Field::new` returns for a name, the data type of the given column type,
/// and a nullability flag.
pub uninterp spec fn arrow_field(name: Seq<char>, column_type: ColumnType, nullable: bool) -> Field;

/// What `Schema::new` returns for a sequence of fields.
pub uninterp spec fn arrow_schema(fields: Seq<Field>) -> Schema;

/// Calls `arrow::datatypes::Field::new` with the `DataType` variant of the same name as
/// `column_type`. `Field::new` builds the field from its arguments alone (no
/// dictionary information, empty metadata), so the result is named after them.
#[verifier::external_body]
fn new_field(name: &str, column_type: ColumnType, nullable: bool) -> (f: Field)
    ensures
        f == arrow_field(name@, column_type, nullable),
{
    let data_type = match column_type {
        ColumnType::Utf8 => DataType::Utf8,
        ColumnType::Int64 => DataType::Int64,
        ColumnType::Float64 => DataType::Float64,
    };
    Field::new(name, data_type, nullable)
}

/// Calls `arrow::datatypes::Schema::new`, which builds the schema from the fields
/// alone (with empty metadata), so the result is named after them.
#[verifier::external_body]
fn new_schema(fields: Vec<Field>) -> (s: Schema)
    ensures
        s == arrow_schema(fields@),
{
    Schema::new(fields)
}

/// The columns of a sentiment tick, in order: ticker, timestamp, polarity, topic
/// and velocity, none of them nullable.
pub open spec fn sentiment_fields() -> Seq<Field> {
    seq![
        arrow_field("ticker"@, ColumnType::Utf8, false),
        arrow_field("timestamp"@, ColumnType::Int64, false),
        arrow_field("polarity"@, ColumnType::Float64, false),
        arrow_field("topic"@, ColumnType::Utf8, false),
        arrow_field("velocity"@, ColumnType::Float64, false),
    ]
}

/// Arrow schema of the sentiment ticks, for the zero-copy hand-over to the database.
pub fn sentiment_schema() -> (s: Arc<Schema>)
    ensures
        *s == arrow_schema(sentiment_fields()),
{
    let mut fields: Vec<Field> = Vec::new();
    fields.push(new_field("ticker", ColumnType::Utf8, false));
    fields.push(new_field("timestamp", ColumnType::Int64, false));
    fields.push(new_field("polarity", ColumnType::Float64, false));
    fields.push(new_field("topic", ColumnType::Utf8, false));
    fields.push(new_field("velocity", ColumnType::Float64, false));
    assert(fields@ =~= sentiment_fields());
    Arc::new(new_schema(fields))
}

} // verus!
