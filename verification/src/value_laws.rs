//! What schemas, filters and groups of files answer, told of the values that callers see.

use crate::error::DataFusionError;
use crate::expr::{applicable, expr_applicable_for_cols, Expr, Volatility};
use crate::files::{SizedFile, Statistics};
use crate::format::FileFormat;
use crate::grouping::{
    chunk_size, file_groups, groups_are_even, groups_are_within_the_limit,
    groups_together_are_the_files, groups_view, split_files,
};
use crate::schema::{
    add_partition_columns, columns, default_partition_column_datatype, field_view,
    partition_columns, project_schema, projection_error, schema_fields, schema_metadata, texts,
};
use crate::table::is_table_schema;
use arrow::datatypes::{DataType, Schema, SchemaRef};
use vstd::prelude::*;

verus! {

/// `table_schema` has the fields of `file_schema`, then one for each of `names` in their order, and
/// no metadata. A field that is added has the name, is a dictionary of strings with 8-bit keys and is
/// never null.
pub open spec fn has_partition_columns_behind(
    file_schema: Schema,
    names: Seq<String>,
    table_schema: Schema,
) -> bool {
    &&& schema_fields(table_schema).len() == schema_fields(file_schema).len() + names.len()
    &&& forall|i: int|
        0 <= i < schema_fields(file_schema).len() ==> field_view(
            #[trigger] schema_fields(table_schema)[i],
        ) == field_view(schema_fields(file_schema)[i])
    &&& forall|i: int|
        0 <= i < names.len() ==> {
            let added = field_view(
                schema_fields(table_schema)[schema_fields(file_schema).len() + i],
            );
            &&& added.name == (#[trigger] names[i])@
            &&& added.data_type == DataType::Dictionary(
                Box::new(DataType::UInt8),
                Box::new(DataType::Utf8),
            )
            &&& !added.nullable
            &&& added.dict_id == 0
            &&& !added.dict_is_ordered
            &&& added.metadata is None
        }
    &&& forall|key: Seq<char>| !schema_metadata(table_schema).contains_key(key)
}

/// Partition columns are added behind the columns of the files, which stay as they are.
pub proof fn partition_columns_are_added_behind(
    file_schema: &Schema,
    names: &Vec<String>,
    table_schema: Schema,
)
    requires
        call_ensures(add_partition_columns, (file_schema, names), table_schema),
    ensures
        has_partition_columns_behind(*file_schema, names@, table_schema),
{
    lemma_partition_columns_behind(file_schema, names@, &table_schema);
}

/// What the fields of the schema of a table hold, told of the fields themselves.
pub(crate) proof fn lemma_partition_columns_behind(
    file_schema: &Schema,
    names: Seq<String>,
    table_schema: &Schema,
)
    requires
        is_table_schema(*file_schema, texts(names), *table_schema),
    ensures
        has_partition_columns_behind(*file_schema, names, *table_schema),
{
    let file_count = schema_fields(*file_schema).len();
    let all = columns(*table_schema);
    let of_files = columns(*file_schema);
    let of_partitions = partition_columns(texts(names));
    assert(all.len() == schema_fields(*table_schema).len());
    assert(of_files.len() == file_count);
    assert(of_partitions.len() == names.len());
    assert forall|i: int| 0 <= i < file_count implies field_view(
        #[trigger] schema_fields(*table_schema)[i],
    ) == field_view(schema_fields(*file_schema)[i]) by {
        assert(all[i] == of_files[i]);
    }
    assert forall|i: int| 0 <= i < names.len() implies {
        let added = field_view(schema_fields(*table_schema)[file_count + i]);
        &&& added.name == (#[trigger] names[i])@
        &&& added.data_type == DataType::Dictionary(
            Box::new(DataType::UInt8),
            Box::new(DataType::Utf8),
        )
        &&& !added.nullable
        &&& added.dict_id == 0
        &&& !added.dict_is_ordered
        &&& added.metadata is None
    } by {
        assert(all[file_count + i] == of_partitions[i]);
        assert(texts(names)[i] == names[i]@);
    }
}

/// The data type of partition columns is a dictionary of strings with 8-bit keys.
pub proof fn partition_columns_are_dictionaries(data_type: DataType)
    requires
        call_ensures(default_partition_column_datatype, (), data_type),
    ensures
        data_type == DataType::Dictionary(Box::new(DataType::UInt8), Box::new(DataType::Utf8)),
{
}

/// Without a projection a schema stays as it is.
pub proof fn no_projection_keeps_the_schema(
    schema: &SchemaRef,
    result: Result<SchemaRef, DataFusionError>,
)
    requires
        call_ensures(project_schema, (schema, None), result),
    ensures
        result is Ok,
        result->Ok_0 == *schema,
{
}

/// A projection of positions that are all within the schema gives the columns at these positions, as
/// many and in their order, with the metadata of the schema; any other fails.
pub proof fn projections_give_the_columns_at_their_positions(
    schema: &SchemaRef,
    indices: &Vec<usize>,
    result: Result<SchemaRef, DataFusionError>,
)
    requires
        call_ensures(project_schema, (schema, Some(indices)), result),
    ensures
        result is Ok <==> forall|i: int|
            0 <= i < indices@.len() ==> #[trigger] indices@[i] < schema_fields(**schema).len(),
        result matches Ok(projected) ==> {
            &&& schema_fields(*projected).len() == indices@.len()
            &&& forall|i: int|
                0 <= i < indices@.len() ==> field_view(#[trigger] schema_fields(*projected)[i])
                    == field_view(schema_fields(**schema)[indices@[i] as int])
            &&& schema_metadata(*projected) == schema_metadata(**schema)
        },
        result matches Err(error) ==> error == DataFusionError::ArrowError(
            projection_error(indices@, schema_fields(**schema).len()),
        ),
{
    assert(columns(**schema).len() == schema_fields(**schema).len());
    if let Ok(projected) = result {
        lemma_projected_columns(&**schema, indices@, &*projected);
    }
}

/// Columns that are those of a schema at some positions hold what the fields there hold.
pub(crate) proof fn lemma_projected_columns(
    schema: &Schema,
    indices: Seq<usize>,
    projected: &Schema,
)
    requires
        forall|i: int| 0 <= i < indices.len() ==> #[trigger] indices[i] < schema_fields(*schema).len(),
        columns(*projected) == indices.map_values(|i: usize| columns(*schema)[i as int]),
    ensures
        schema_fields(*projected).len() == indices.len(),
        forall|i: int|
            0 <= i < indices.len() ==> field_view(#[trigger] schema_fields(*projected)[i])
                == field_view(schema_fields(*schema)[indices[i] as int]),
{
    let expected = indices.map_values(|i: usize| columns(*schema)[i as int]);
    assert(columns(*projected).len() == schema_fields(*projected).len());
    assert forall|i: int| 0 <= i < indices.len() implies field_view(
        #[trigger] schema_fields(*projected)[i],
    ) == field_view(schema_fields(*schema)[indices[i] as int]) by {
        assert(columns(*projected)[i] == expected[i]);
        assert(indices[i] < schema_fields(*schema).len());
        assert(columns(*projected)[i] == field_view(schema_fields(*projected)[i]));
        assert(expected[i] == columns(*schema)[indices[i] as int]);
        assert(columns(*schema)[indices[i] as int] == field_view(
            schema_fields(*schema)[indices[i] as int],
        ));
    }
}

/// Statistics that nothing was read for tell nothing.
pub proof fn default_statistics_tell_nothing(statistics: Statistics)
    requires
        call_ensures(Statistics::default, (), statistics),
    ensures
        statistics.num_rows is None,
        statistics.total_byte_size is None,
        statistics.column_statistics is None,
        !statistics.is_exact,
{
}

/// A clone of a file has its path and its size.
pub proof fn cloned_files_agree(file: SizedFile, copy: SizedFile)
    requires
        call_ensures(SizedFile::clone, (&file,), copy),
    ensures
        copy.path@ == file.path@,
        copy.size == file.size,
{
}

/// A clone of a format is that format.
pub proof fn cloned_formats_agree<F: ?Sized>(format: FileFormat<F>, copy: FileFormat<F>)
    requires
        call_ensures(FileFormat::<F>::clone, (&format,), copy),
    ensures
        copy == format,
{
}

/// Files are split into groups that together are the files in order. None is empty. The first `size`
/// of them, where `size` is the least number of which `n` hold all files, are the first group; all
/// other groups but the last have as many, and the last no more.
pub proof fn split_files_are_even_runs<T>(files: Vec<T>, n: usize, groups: Vec<Vec<T>>)
    requires
        files@.len() > 0 ==> n > 0,
        call_ensures(split_files::<T>, (files, n), groups),
    ensures
        groups@.map_values(|group: Vec<T>| group@).flatten() == files@,
        groups@.len() <= n,
        groups@.len() == 0 <==> files@.len() == 0,
        forall|i: int| 0 <= i < groups@.len() ==> (#[trigger] groups@[i])@.len() > 0,
        files@.len() > 0 ==> {
            let size = groups@[0]@.len();
            &&& size * n >= files@.len()
            &&& (size - 1) * n < files@.len()
            &&& forall|i: int|
                0 <= i < groups@.len() - 1 ==> (#[trigger] groups@[i])@.len() == size
            &&& groups@.last()@.len() <= size
        },
{
    lemma_groups(files@, n as nat, groups@);
}

/// What groups of files are, told of the groups themselves.
pub(crate) proof fn lemma_groups<T>(files: Seq<T>, n: nat, groups: Seq<Vec<T>>)
    requires
        files.len() > 0 ==> n > 0,
        groups_view(groups) == file_groups(files, n),
    ensures
        groups.map_values(|group: Vec<T>| group@).flatten() == files,
        groups.len() <= n,
        groups.len() == 0 <==> files.len() == 0,
        forall|i: int| 0 <= i < groups.len() ==> (#[trigger] groups[i])@.len() > 0,
        files.len() > 0 ==> {
            let size = groups[0]@.len();
            &&& size * n >= files.len()
            &&& (size - 1) * n < files.len()
            &&& forall|i: int| 0 <= i < groups.len() - 1 ==> (#[trigger] groups[i])@.len() == size
            &&& groups.last()@.len() <= size
        },
{
    groups_together_are_the_files(files, n);
    groups_are_within_the_limit(files, n);
    groups_are_even(files, n);
    let views = groups_view(groups);
    assert(views =~= groups.map_values(|group: Vec<T>| group@));
    assert(views.len() == groups.len());
    assert forall|i: int| 0 <= i < groups.len() implies views[i] == (#[trigger] groups[i])@ by {}
    if files.len() > 0 {
        let size = groups[0]@.len();
        let wanted = chunk_size(files.len(), n);
        let count = files.len() as int;
        assert(views[0] == groups[0]@);
        if groups.len() == 1 {
            assert(views =~= seq![views[0]]);
            views.lemma_flatten_one_element();
            assert(views[0] == files);
        }
        assert(wanted * n >= count && (wanted - 1) * n < count && wanted <= count) by (nonlinear_arith)
            requires
                wanted == (count - 1) / (n as int) + 1,
                n > 0,
                count > 0,
        ;
        assert(size == wanted);
        assert(groups.last()@ == views.last());
    }
}

/// A column is decided by columns that it is among, a constant by any, an operation by columns that
/// decide all its operands, a call by columns that decide all its arguments if it is immutable, and
/// anything else by none.
pub proof fn filters_are_decided_by_their_parts(
    cols: &Vec<String>,
    expr: &Expr,
    resolved: bool,
    parts: Seq<bool>,
)
    requires
        call_ensures(expr_applicable_for_cols, (cols, expr), resolved),
        expr matches Expr::Operation { args, .. } ==> parts.len() == args@.len() && forall|i: int|
            0 <= i < parts.len() ==> call_ensures(
                expr_applicable_for_cols,
                (cols, &args@[i]),
                #[trigger] parts[i],
            ),
        expr matches Expr::Call { args, .. } ==> parts.len() == args@.len() && forall|i: int|
            0 <= i < parts.len() ==> call_ensures(
                expr_applicable_for_cols,
                (cols, &args@[i]),
                #[trigger] parts[i],
            ),
    ensures
        expr matches Expr::Column(name) ==> (resolved <==> exists|i: int|
            0 <= i < cols@.len() && (#[trigger] cols@[i])@ == name@),
        expr is Literal ==> resolved,
        expr is Operation ==> (resolved <==> forall|i: int|
            0 <= i < parts.len() ==> #[trigger] parts[i]),
        expr matches Expr::Call { volatility, .. } ==> (resolved <==> volatility
            == Volatility::Immutable && forall|i: int| 0 <= i < parts.len() ==> #[trigger] parts[i]),
        expr is Other ==> !resolved,
{
    match expr {
        Expr::Column(name) => {
            lemma_contains(cols@, name@);
        },
        Expr::Operation { args, .. } => {
            lemma_parts(cols, args@, parts);
        },
        Expr::Call { args, .. } => {
            lemma_parts(cols, args@, parts);
        },
        _ => {},
    }
}

/// The columns decide all of `args` if and only if each is said to be decided.
proof fn lemma_parts(cols: &Vec<String>, args: Seq<Expr>, parts: Seq<bool>)
    requires
        parts.len() == args.len(),
        forall|i: int|
            0 <= i < parts.len() ==> call_ensures(
                expr_applicable_for_cols,
                (cols, &args[i]),
                #[trigger] parts[i],
            ),
    ensures
        (forall|i: int| 0 <= i < args.len() ==> applicable(texts(cols@), #[trigger] args[i])) <==> (
        forall|i: int| 0 <= i < parts.len() ==> #[trigger] parts[i]),
{
    assert forall|i: int| 0 <= i < args.len() implies #[trigger] applicable(texts(cols@), args[i])
        == parts[i] by {
        assert(call_ensures(expr_applicable_for_cols, (cols, &args[i]), parts[i]));
    }
    if forall|i: int| 0 <= i < args.len() ==> applicable(texts(cols@), #[trigger] args[i]) {
        assert forall|i: int| 0 <= i < parts.len() implies #[trigger] parts[i] by {
            assert(applicable(texts(cols@), args[i]));
        }
    }
}

/// A name is among the texts if and only if some string holds it.
proof fn lemma_contains(cols: Seq<String>, name: Seq<char>)
    ensures
        texts(cols).contains(name) <==> exists|i: int|
            0 <= i < cols.len() && (#[trigger] cols[i])@ == name,
{
    if texts(cols).contains(name) {
        let i = choose|i: int| 0 <= i < texts(cols).len() && texts(cols)[i] == name;
        assert(cols[i]@ == name);
    }
    if exists|i: int| 0 <= i < cols.len() && (#[trigger] cols[i])@ == name {
        let i = choose|i: int| 0 <= i < cols.len() && (#[trigger] cols[i])@ == name;
        assert(texts(cols)[i] == name);
    }
}

} // verus!
