//! Calls into the `arrow` crate that build an Arrow schema, one field at a
//! time.

use vstd::prelude::*;

use arrow::datatypes::{DataType, Field, Schema, SchemaBuilder, TimeUnit};

verus! {

#[verifier::external_type_specification]
#[verifier::external_body]
pub struct ExArrowSchemaBuilder(arrow::datatypes::SchemaBuilder);

#[verifier::external_type_specification]
#[verifier::external_body]
pub struct ExArrowSchema(arrow::datatypes::Schema);

/// The Arrow data types that table columns are stored as.
#[derive(Clone, Copy, Debug, PartialEq, Eq)]
pub enum ArrowType {
    /// `DataType::Utf8`
    Utf8,
    /// `DataType::Int64`
    Int64,
    /// `DataType::Float64`
    Float64,
    /// `DataType::Timestamp(TimeUnit::Second, None)`
    TimestampSeconds,
}

/// The fields that a schema builder holds, in order: each field's name,
/// data type and whether it is nullable.
pub uninterp spec fn builder_fields(b: SchemaBuilder) -> Seq<(Seq<char>, ArrowType, bool)>;

/// The metadata that a schema builder holds: key to value.
pub uninterp spec fn builder_metadata(b: SchemaBuilder) -> Map<Seq<char>, Seq<char>>;

/// The fields of a schema, in order: each field's name, data type and
/// whether it is nullable.
pub uninterp spec fn schema_fields(s: Schema) -> Seq<(Seq<char>, ArrowType, bool)>;

/// The metadata of a schema: key to value.
pub uninterp spec fn schema_metadata(s: Schema) -> Map<Seq<char>, Seq<char>>;

/// Metadata with no entries.
pub open spec fn no_metadata() -> Map<Seq<char>, Seq<char>> {
    Map::empty()
}

/// Calls `arrow::datatypes::SchemaBuilder::new`, which starts with no
/// fields and no metadata.
#[verifier::external_body]
pub(crate) fn new_schema_builder() -> (b: SchemaBuilder)
    ensures
        builder_fields(b) == Seq::<(Seq<char>, ArrowType, bool)>::empty(),
        builder_metadata(b) == no_metadata(),
{
    SchemaBuilder::new()
}

/// Calls `arrow::datatypes::Field::new` and `SchemaBuilder::push`, which
/// appends the field after the ones already held and leaves the metadata
/// as it was.
#[verifier::external_body]
pub(crate) fn push_field(b: &mut SchemaBuilder, name: String, ty: ArrowType, nullable: bool)
    ensures
        builder_fields(*final(b)) == builder_fields(*old(b)).push((name@, ty, nullable)),
        builder_metadata(*final(b)) == builder_metadata(*old(b)),
{
    let data_type = match ty {
        ArrowType::Utf8 => DataType::Utf8,
        ArrowType::Int64 => DataType::Int64,
        ArrowType::Float64 => DataType::Float64,
        ArrowType::TimestampSeconds => DataType::Timestamp(TimeUnit::Second, None),
    };
    b.push(Field::new(name, data_type, nullable));
}

/// Calls `arrow::datatypes::SchemaBuilder::finish`, whose schema holds the
/// builder's fields, in the same order, and its metadata.
#[verifier::external_body]
pub(crate) fn finish_schema(b: SchemaBuilder) -> (s: Schema)
    ensures
        schema_fields(s) == builder_fields(b),
        schema_metadata(s) == builder_metadata(b),
{
    b.finish()
}

} // verus!
