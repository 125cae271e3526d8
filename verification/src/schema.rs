//! Schemas: what the library relies on of the `arrow` crate, the columns that partitioning adds to
//! the columns of the files, and projection.

use crate::error::DataFusionError;
use arrow::datatypes::{DataType, Field, Schema, SchemaRef};
use arrow::error::ArrowError;
use std::sync::Arc;
use vstd::prelude::*;

verus! {

/// The schema type of the `arrow` crate, opaque here.
#[verifier::external_type_specification]
#[verifier::external_body]
pub struct ExSchema(arrow::datatypes::Schema);

/// The field type of the `arrow` crate, opaque here.
#[verifier::external_type_specification]
#[verifier::external_body]
pub struct ExField(arrow::datatypes::Field);

/// The data types of the `arrow` crate. Verus reads the variants from the crate itself.
#[verifier::external_type_specification]
pub struct ExDataType(arrow::datatypes::DataType);

/// The units of `DataType::Timestamp`, `Time32`, `Time64` and `Duration`.
#[verifier::external_type_specification]
pub struct ExTimeUnit(arrow::datatypes::TimeUnit);

/// The units of `DataType::Interval`.
#[verifier::external_type_specification]
pub struct ExIntervalUnit(arrow::datatypes::IntervalUnit);

/// The layouts of `DataType::Union`.
#[verifier::external_type_specification]
pub struct ExUnionMode(arrow::datatypes::UnionMode);

/// Key-value pairs that are attached to a schema or a field.
pub type Metadata = Map<Seq<char>, Seq<char>>;

/// What a field holds.
pub struct FieldView {
    pub name: Seq<char>,
    pub data_type: DataType,
    pub nullable: bool,
    pub dict_id: int,
    pub dict_is_ordered: bool,
    pub metadata: Option<Metadata>,
}

/// The fields that a schema holds, in order.
pub uninterp spec fn schema_fields(schema: Schema) -> Seq<Field>;

/// The key-value pairs that a schema holds.
pub uninterp spec fn schema_metadata(schema: Schema) -> Metadata;

/// What a field holds.
pub uninterp spec fn field_view(field: Field) -> FieldView;

/// The error with which `Schema::project` refuses `indices` on a schema of `count` fields.
pub uninterp spec fn projection_error(indices: Seq<usize>, count: nat) -> ArrowError;

/// `Field::new`: a field with the given name, data type and nullability, with the dictionary
/// identifier 0, an unordered dictionary and no metadata.
pub assume_specification[ Field::new ](name: &str, data_type: DataType, nullable: bool) -> (field:
    Field)
    ensures
        field_view(field) == (FieldView {
            name: name@,
            data_type,
            nullable,
            dict_id: 0,
            dict_is_ordered: false,
            metadata: None,
        }),
;

/// `Field::clone`: the same field.
pub assume_specification[ <Field as Clone>::clone ](field: &Field) -> (copy: Field)
    ensures
        copy == *field,
;

/// `Schema::new`: a schema of the given fields, in their order, without metadata.
pub assume_specification[ Schema::new ](fields: Vec<Field>) -> (schema: Schema)
    ensures
        schema_fields(schema) == fields@,
        schema_metadata(schema) == Metadata::empty(),
;

/// `Schema::fields`: the fields of the schema.
pub assume_specification[ Schema::fields ](schema: &Schema) -> (fields: &Vec<Field>)
    ensures
        fields@ == schema_fields(*schema),
;

/// `Schema::project`: the fields at the given positions, in the order of the positions, with the
/// metadata of the schema. It fails if and only if a position is not one of a field, with an
/// error that depends on the positions and on the number of fields alone.
pub assume_specification[ Schema::project ](schema: &Schema, indices: &[usize]) -> (projected:
    Result<Schema, ArrowError>)
    ensures
        projected is Ok <==> positions_valid(indices@, schema_fields(*schema).len()),
        projected matches Ok(result) ==> {
            &&& schema_fields(result) == indices@.map_values(
                |i: usize| schema_fields(*schema)[i as int],
            )
            &&& schema_metadata(result) == schema_metadata(*schema)
        },
        projected matches Err(error) ==> error == projection_error(
            indices@,
            schema_fields(*schema).len(),
        ),
;

/// Each of `indices` is less than `count`.
pub open spec fn positions_valid(indices: Seq<usize>, count: nat) -> bool {
    forall|i: int| 0 <= i < indices.len() ==> #[trigger] indices[i] < count
}

/// What the fields of a schema hold.
pub open spec fn columns(schema: Schema) -> Seq<FieldView> {
    schema_fields(schema).map_values(|field: Field| field_view(field))
}

/// The contents of each of `strings`.
pub open spec fn texts(strings: Seq<String>) -> Seq<Seq<char>> {
    strings.map_values(|s: String| s@)
}

/// Whether `names` holds `name`.
pub(crate) fn has_name(names: &Vec<String>, name: &String) -> (found: bool)
    ensures
        found == texts(names@).contains(name@),
{
    let mut i: usize = 0;
    while i < names.len()
        invariant
            i <= names@.len(),
            forall|j: int| 0 <= j < i ==> (#[trigger] names@[j])@ != name@,
        decreases names@.len() - i,
    {
        if names[i] == *name {
            assert(texts(names@)[i as int] == name@);
            return true;
        }
        i = i + 1;
    }
    false
}

/// The data type of partition columns: strings in a dictionary with 8-bit keys.
pub open spec fn partition_column_datatype() -> DataType {
    DataType::Dictionary(Box::new(DataType::UInt8), Box::new(DataType::Utf8))
}

/// The partition column of the given name.
pub open spec fn partition_column(name: Seq<char>) -> FieldView {
    FieldView {
        name,
        data_type: partition_column_datatype(),
        nullable: false,
        dict_id: 0,
        dict_is_ordered: false,
        metadata: None,
    }
}

/// The partition columns of the given names.
pub open spec fn partition_columns(names: Seq<Seq<char>>) -> Seq<FieldView> {
    names.map_values(|name: Seq<char>| partition_column(name))
}

/// The data type of partition columns.
pub fn default_partition_column_datatype() -> (data_type: DataType)
    ensures
        data_type == partition_column_datatype(),
{
    DataType::Dictionary(Box::new(DataType::UInt8), Box::new(DataType::Utf8))
}

/// Adds the partition columns to the columns of the files.
pub fn add_partition_columns(file_schema: &Schema, table_partition_cols: &Vec<String>) -> (table_schema:
    Schema)
    ensures
        columns(table_schema) == columns(*file_schema) + partition_columns(
            texts(table_partition_cols@),
        ),
        schema_metadata(table_schema) == Metadata::empty(),
{
    let mut table_fields = file_schema.fields().clone();
    assert(table_fields@ =~= schema_fields(*file_schema));
    let ghost names = texts(table_partition_cols@);
    let mut i: usize = 0;
    assert(table_fields@.map_values(|field: Field| field_view(field)) =~= columns(*file_schema)
        + partition_columns(names.take(0)));
    while i < table_partition_cols.len()
        invariant
            i <= table_partition_cols@.len(),
            names == texts(table_partition_cols@),
            table_fields@.map_values(|field: Field| field_view(field)) == columns(*file_schema)
                + partition_columns(names.take(i as int)),
        decreases table_partition_cols@.len() - i,
    {
        let ghost before = table_fields@;
        let field = Field::new(
            table_partition_cols[i].as_str(),
            default_partition_column_datatype(),
            false,
        );
        table_fields.push(field);
        i = i + 1;
        proof {
            assert(names.take(i as int) =~= names.take(i - 1).push(names[i - 1]));
            assert(table_fields@.map_values(|field: Field| field_view(field)) =~= before.map_values(
                |field: Field| field_view(field),
            ).push(field_view(field)));
            assert(table_fields@.map_values(|field: Field| field_view(field)) =~= columns(
                *file_schema,
            ) + partition_columns(names.take(i as int)));
        }
    }
    assert(names.take(i as int) =~= names);
    Schema::new(table_fields)
}

/// The positions that a projection names, if there is one.
pub open spec fn positions(projection: Option<Vec<usize>>) -> Option<Seq<usize>> {
    match projection {
        Some(indices) => Some(indices@),
        None => None,
    }
}

/// `result` is what projecting `schema` gives: the schema itself without a projection, else the
/// columns at the positions of the projection in their order, or an error if any of these positions is
/// out of range.
pub open spec fn is_projection(
    schema: Schema,
    projection: Option<Seq<usize>>,
    result: Result<SchemaRef, DataFusionError>,
) -> bool {
    match projection {
        None => result matches Ok(projected) && *projected == schema,
        Some(indices) => if positions_valid(indices, columns(schema).len()) {
            &&& result matches Ok(projected)
            &&& columns(*projected) == indices.map_values(|i: usize| columns(schema)[i as int])
            &&& schema_metadata(*projected) == schema_metadata(schema)
        } else {
            &&& result matches Err(error)
            &&& error == DataFusionError::ArrowError(
                projection_error(indices, columns(schema).len()),
            )
        },
    }
}

/// The columns of `schema` that `projection` names, in its order; all of them without a projection.
pub fn project_schema(schema: &SchemaRef, projection: Option<&Vec<usize>>) -> (result: Result<
    SchemaRef,
    DataFusionError,
>)
    ensures
        is_projection(
            **schema,
            match projection {
                Some(indices) => Some(indices@),
                None => None,
            },
            result,
        ),
{
    match projection {
        None => Ok(Arc::clone(schema)),
        Some(indices) => match schema.project(indices.as_slice()) {
            Ok(projected) => {
                assert(columns(projected) =~= indices@.map_values(
                    |i: usize| columns(**schema)[i as int],
                ));
                Ok(Arc::new(projected))
            },
            Err(error) => Err(DataFusionError::ArrowError(error)),
        },
    }
}

} // verus!
