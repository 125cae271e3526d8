//! Options, configurations, schemas, filters and groups on their own.

use arrow::datatypes::{DataType, Field, Schema, SchemaRef};
use listing_table::config::ListingTableConfig;
use listing_table::error::DataFusionError;
use listing_table::expr::{
    expr_applicable_for_cols, Expr, TableProviderFilterPushDown, Volatility,
};
use listing_table::files::{FileMeta, SizedFile};
use listing_table::format::FileFormat;
use listing_table::grouping::split_files;
use listing_table::options::{ListingOptions, SchemaAction, SchemaEvent};
use listing_table::schema::{
    add_partition_columns, default_partition_column_datatype, project_schema,
};
use listing_table::table::{ListingTable, PendingStep, TableStep};
use std::collections::{BTreeMap, HashMap};
use std::sync::Arc;

/// A format that is supplied from outside.
struct Rows {
    width: usize,
}

type Options = ListingOptions<Rows>;
type Config = ListingTableConfig<str, Rows>;
type Table = ListingTable<str, Rows>;

fn store() -> Arc<str> {
    Arc::from("store")
}

fn config(path: &str) -> Config {
    Config::new(store(), path.to_string())
}

fn names(schema: &Schema) -> Vec<String> {
    schema.fields().iter().map(|field| field.name().clone()).collect()
}

fn ready(config: Config) -> Table {
    match Table::new(config) {
        Ok(TableStep::Ready(table)) => table,
        _ => panic!("the table is not ready"),
    }
}

fn strings(texts: &[&str]) -> Vec<String> {
    texts.iter().map(|text| text.to_string()).collect()
}

fn one_column() -> SchemaRef {
    Arc::new(Schema::new(vec![Field::new("a", DataType::Int32, true)]))
}

#[test]
fn options_have_defaults() {
    let options = Options::new(FileFormat::Json);
    assert_eq!(options.file_extension, "");
    assert!(matches!(options.format, FileFormat::Json));
    assert!(options.table_partition_cols.is_empty());
    assert!(!options.collect_stat);
    assert_eq!(options.target_partitions, 1);
}

#[test]
fn cloned_options_are_the_same() {
    let mut options = Options::new(FileFormat::Custom(Arc::new(Rows { width: 7 })));
    options.file_extension = ".rows".to_string();
    options.table_partition_cols = strings(&["year", "month"]);
    options.collect_stat = true;
    options.target_partitions = 5;
    let copy = options.clone();
    assert_eq!(copy.file_extension, ".rows");
    assert_eq!(copy.table_partition_cols, strings(&["year", "month"]));
    assert!(copy.collect_stat);
    assert_eq!(copy.target_partitions, 5);
    match copy.format {
        FileFormat::Custom(rows) => assert_eq!(rows.width, 7),
        _ => panic!("the format was lost"),
    }
}

#[test]
fn configurations_keep_what_they_are_given() {
    let plain = config("some/path");
    assert_eq!(&*plain.object_store, "store");
    assert_eq!(plain.table_path, "some/path");
    assert!(plain.file_schema.is_none());
    assert!(plain.options.is_none());

    let first = config("p").with_schema(one_column()).with_listing_options(Options::new(FileFormat::Csv));
    let second = config("p").with_listing_options(Options::new(FileFormat::Csv)).with_schema(one_column());
    for config in [first, second] {
        assert_eq!(config.file_schema, Some(one_column()));
        assert!(matches!(config.options.unwrap().format, FileFormat::Csv));
        assert_eq!(config.table_path, "p");
    }

    let again = config("p")
        .with_listing_options(Options::new(FileFormat::Csv))
        .with_listing_options(Options::new(FileFormat::Avro));
    assert!(matches!(again.options.unwrap().format, FileFormat::Avro));
}

fn inferred(path: &str, target_partitions: usize) -> Option<Options> {
    let mut config = config(path);
    match config.infer_options_for(target_partitions) {
        Ok(options) => {
            let kept = config.options.unwrap();
            assert_eq!(kept.file_extension, options.file_extension);
            assert_eq!(kept.target_partitions, options.target_partitions);
            Some(options)
        }
        Err(DataFusionError::Internal(message)) => {
            assert_eq!(message, "Unable to infer file suffix");
            assert!(config.options.is_none());
            None
        }
        Err(error) => panic!("{:?}", error),
    }
}

#[test]
fn suffixes_stand_for_formats() {
    let avro = inferred("data/a.avro", 3).unwrap();
    assert!(matches!(avro.format, FileFormat::Avro));
    assert_eq!(avro.file_extension, "avro");
    assert_eq!(avro.target_partitions, 3);
    assert!(avro.collect_stat);
    assert!(avro.table_partition_cols.is_empty());

    assert!(matches!(inferred("data/a.csv", 1).unwrap().format, FileFormat::Csv));
    assert!(matches!(inferred("data/a.json", 1).unwrap().format, FileFormat::Json));
    assert!(matches!(inferred("data/a.parquet", 1).unwrap().format, FileFormat::Parquet));
}

#[test]
fn suffixes_follow_the_last_dot() {
    assert_eq!(inferred("v1.2/a.tar.csv", 1).unwrap().file_extension, "csv");
    assert_eq!(inferred(".json", 1).unwrap().file_extension, "json");
    assert_eq!(inferred("caf\u{e9}.\u{4e2d}.avro", 1).unwrap().file_extension, "avro");
    // a path without a dot is a suffix as a whole
    assert!(matches!(inferred("csv", 1).unwrap().format, FileFormat::Csv));
    for path in ["", ".", "a.csv.", "a.CSV", "a.csv.gz", "dir.csv/file", "bucket/key-prefix/", "a.csvx"] {
        assert!(inferred(path, 1).is_none());
    }
}

#[test]
fn folders_name_partition_columns() {
    let cols = |path: &str| inferred(path, 1).unwrap().table_partition_cols;
    assert_eq!(cols("table/p1=v1/file.avro"), strings(&["p1"]));
    assert_eq!(cols("t/year=2021/month=11/f.csv"), strings(&["year", "month"]));
    assert_eq!(cols("t/year=2021/raw/month=11/f.csv"), strings(&["year", "month"]));
    assert_eq!(cols("p=v/f.csv"), strings(&["p"]));
    // the first `=` ends the name
    assert_eq!(cols("p=a=b/f.csv"), strings(&["p"]));
    assert_eq!(cols("p=/f.csv"), strings(&["p"]));
    assert_eq!(cols("t/caf\u{e9}=1/f.csv"), strings(&["caf\u{e9}"]));
    // a name counts once, and nothing is no name
    assert_eq!(cols("a=1/b=2/a=3/f.csv"), strings(&["a", "b"]));
    assert!(cols("=v/f.csv").is_empty());
    assert_eq!(cols("=v/a=1/==/f.csv"), strings(&["a"]));
    // the name of the file names no column
    assert!(cols("t/p=v.csv").is_empty());
    assert!(cols("p=v.csv").is_empty());
    assert!(cols("a//b/f.csv").is_empty());
    assert!(cols("csv").is_empty());
}

#[test]
fn folders_of_the_path_add_columns() {
    let table = ready(config("t/p=1/q=2/f.json").with_schema(one_column()));
    assert_eq!(names(&table.schema()), strings(&["a", "p", "q"]));
    let exact = table.supports_filter_pushdown(&col("q"));
    assert_eq!(exact.unwrap(), TableProviderFilterPushDown::Exact);
}

#[test]
fn as_many_partitions_as_cpus_are_inferred() {
    let mut config = config("a.csv");
    let options = match config.infer_options() {
        Ok(options) => options,
        Err(error) => panic!("{:?}", error),
    };
    assert!(options.target_partitions >= 1);
    assert_eq!(options.target_partitions, num_cpus::get());
    assert_eq!(config.options.unwrap().target_partitions, options.target_partitions);
    assert_eq!(config.table_path, "a.csv");
}

#[test]
fn schemas_are_inferred_step_by_step() {
    let mut options = Options::new(FileFormat::Parquet);
    options.file_extension = "parquet".to_string();
    match options.infer_schema(store(), "data/", SchemaEvent::Start) {
        SchemaAction::ListFiles { object_store, path, suffix } => {
            assert_eq!(&*object_store, "store");
            assert_eq!(path, "data/");
            assert_eq!(suffix, "parquet");
        }
        _ => panic!("no listing"),
    }
    match options.infer_schema(store(), "data/", SchemaEvent::Listed(Ok(()))) {
        SchemaAction::InferSchema { format } => assert!(matches!(format, FileFormat::Parquet)),
        _ => panic!("no inference"),
    }
    let file = SizedFile { path: "data/f.parquet".to_string(), size: 12 };
    let meta = FileMeta { sized_file: file.clone() };
    match options.infer_schema(store(), "data/", SchemaEvent::File(Ok(meta))) {
        SchemaAction::OpenReader { object_store, file: opened } => {
            assert_eq!(&*object_store, "store");
            assert_eq!(opened, file);
        }
        _ => panic!("no reader"),
    }
    let broken = DataFusionError::External("broken".to_string());
    match options.infer_schema(store(), "data/", SchemaEvent::File(Err(broken))) {
        SchemaAction::YieldError(DataFusionError::External(text)) => assert_eq!(text, "broken"),
        _ => panic!("no error"),
    }
    let broken = DataFusionError::External("broken".to_string());
    match options.infer_schema(store(), "data/", SchemaEvent::Listed(Err(broken))) {
        SchemaAction::Done(Err(DataFusionError::External(text))) => assert_eq!(text, "broken"),
        _ => panic!("no error"),
    }
    match options.infer_schema(store(), "data/", SchemaEvent::Inferred(Ok(one_column()))) {
        SchemaAction::Done(Ok(schema)) => assert_eq!(schema, one_column()),
        _ => panic!("no schema"),
    }
}

#[test]
fn inferred_schemas_are_kept_in_the_configuration() {
    let options = Options::new(FileFormat::Csv);
    let mut config = config("data/");
    match config.infer_schema(&options, SchemaEvent::Start) {
        SchemaAction::ListFiles { path, suffix, .. } => {
            assert_eq!(path, "data/");
            assert_eq!(suffix, "");
        }
        _ => panic!("no listing"),
    }
    assert!(config.file_schema.is_none());
    let broken = DataFusionError::Internal("broken".to_string());
    let action = config.infer_schema(&options, SchemaEvent::Inferred(Err(broken)));
    assert!(matches!(action, SchemaAction::Done(Err(DataFusionError::Internal(_)))));
    assert!(config.file_schema.is_none());
    let action = config.infer_schema(&options, SchemaEvent::Inferred(Ok(one_column())));
    assert!(matches!(action, SchemaAction::Done(Ok(_))));
    assert_eq!(config.file_schema, Some(one_column()));
}

#[test]
fn partition_columns_follow_file_columns() {
    let mut described = Field::new("b", DataType::Utf8, true);
    let note: BTreeMap<String, String> = [("k".to_string(), "v".to_string())].into_iter().collect();
    described.set_metadata(Some(note));
    let fields = vec![Field::new("a", DataType::Int32, true), described.clone()];
    let tag: HashMap<String, String> = [("x".to_string(), "y".to_string())].into_iter().collect();
    let file_schema = Schema::new_with_metadata(fields, tag);

    let schema = add_partition_columns(&file_schema, &strings(&["year", "month"]));
    assert_eq!(names(&schema), strings(&["a", "b", "year", "month"]));
    assert_eq!(schema.field(1), &described);
    assert!(schema.metadata().is_empty());
    let dictionary = DataType::Dictionary(Box::new(DataType::UInt8), Box::new(DataType::Utf8));
    assert_eq!(default_partition_column_datatype(), dictionary);
    for i in [2, 3] {
        assert_eq!(schema.field(i).data_type(), &dictionary);
        assert!(!schema.field(i).is_nullable());
        assert_eq!(schema.field(i).dict_id(), Some(0));
        assert_eq!(schema.field(i).dict_is_ordered(), Some(false));
        assert!(schema.field(i).metadata().is_none());
    }

    let unpartitioned = add_partition_columns(&file_schema, &vec![]);
    assert_eq!(unpartitioned.fields(), file_schema.fields());
}

#[test]
fn schemas_are_projected() {
    let tag: HashMap<String, String> = [("x".to_string(), "y".to_string())].into_iter().collect();
    let fields = vec![
        Field::new("a", DataType::Int32, true),
        Field::new("b", DataType::Utf8, false),
    ];
    let schema: SchemaRef = Arc::new(Schema::new_with_metadata(fields, tag.clone()));
    assert_eq!(project_schema(&schema, None).unwrap(), schema);
    let swapped = project_schema(&schema, Some(&vec![1, 0])).unwrap();
    assert_eq!(names(&swapped), strings(&["b", "a"]));
    assert_eq!(swapped.metadata(), &tag);
    assert!(project_schema(&schema, Some(&vec![])).unwrap().fields().is_empty());
    match project_schema(&schema, Some(&vec![5, 0])) {
        Err(DataFusionError::ArrowError(error)) => {
            assert!(error.to_string().contains("project index 5 out of bounds, max field 2"));
        }
        _ => panic!("there is no column 5"),
    }
}

#[test]
fn tables_answer_for_their_configuration() {
    let mut options = Options::new(FileFormat::Csv);
    options.table_partition_cols = strings(&["p"]);
    options.target_partitions = 9;
    let table = ready(config("no suffix here").with_schema(one_column()).with_listing_options(options));
    assert_eq!(&**table.object_store(), "store");
    assert_eq!(table.table_path(), "no suffix here");
    assert_eq!(table.options().target_partitions, 9);
    assert_eq!(table.options().table_partition_cols, strings(&["p"]));
    assert_eq!(names(&table.schema()), strings(&["a", "p"]));
}

#[test]
fn options_are_inferred_for_tables() {
    let table = match Table::new_for(config("d/f.json").with_schema(one_column()), 6) {
        Ok(TableStep::Ready(table)) => table,
        _ => panic!("the table is not ready"),
    };
    assert!(matches!(table.options().format, FileFormat::Json));
    assert_eq!(table.options().file_extension, "json");
    assert_eq!(table.options().target_partitions, 6);
    assert_eq!(table.schema(), one_column());

    match Table::new(config("d/f.txt").with_schema(one_column())) {
        Err(DataFusionError::Internal(message)) => {
            assert_eq!(message, "Unable to infer file suffix");
        }
        _ => panic!("there is no such format"),
    }
}

#[test]
fn tables_wait_for_their_schema() {
    let mut options = Options::new(FileFormat::Csv);
    options.table_partition_cols = strings(&["p"]);
    options.file_extension = ".csv".to_string();
    let pending = match Table::new(config("data/").with_listing_options(options)) {
        Ok(TableStep::NeedsSchema(pending)) => pending,
        _ => panic!("no schema was given"),
    };
    assert_eq!(pending.config().table_path, "data/");
    assert_eq!(pending.options().table_partition_cols, strings(&["p"]));
    let (pending, action) = match pending.step(SchemaEvent::Start) {
        PendingStep::Continue(pending, action) => (pending, action),
        PendingStep::Finished(_) => panic!("nothing was listed"),
    };
    match action {
        SchemaAction::ListFiles { path, suffix, .. } => {
            assert_eq!(path, "data/");
            assert_eq!(suffix, ".csv");
        }
        _ => panic!("no listing"),
    }
    match pending.step(SchemaEvent::Inferred(Ok(one_column()))) {
        PendingStep::Finished(Ok(table)) => {
            assert_eq!(names(&table.schema()), strings(&["a", "p"]));
            assert_eq!(table.table_path(), "data/");
        }
        _ => panic!("the schema is there"),
    }
}

fn col(name: &str) -> Expr {
    Expr::Column(name.to_string())
}

fn lit(text: &str) -> Expr {
    Expr::Literal(text.to_string())
}

fn op(op: &str, args: Vec<Expr>) -> Expr {
    Expr::Operation { op: op.to_string(), args }
}

fn call(volatility: Volatility, args: Vec<Expr>) -> Expr {
    Expr::Call { function: "f".to_string(), volatility, args }
}

#[test]
fn filters_apply_to_columns() {
    let cols = strings(&["p", "q"]);
    assert!(expr_applicable_for_cols(&cols, &col("p")));
    assert!(expr_applicable_for_cols(&cols, &col("q")));
    assert!(!expr_applicable_for_cols(&cols, &col("a")));
    assert!(!expr_applicable_for_cols(&vec![], &col("p")));
    assert!(expr_applicable_for_cols(&vec![], &lit("1")));
    assert!(expr_applicable_for_cols(&cols, &op("=", vec![col("p"), lit("v")])));
    let nested = op("AND", vec![op("=", vec![col("p"), lit("v")]), op("<", vec![col("a"), lit("3")])]);
    assert!(!expr_applicable_for_cols(&cols, &nested));
    assert!(expr_applicable_for_cols(&strings(&["p", "q", "a"]), &nested));
    assert!(expr_applicable_for_cols(&cols, &call(Volatility::Immutable, vec![col("q")])));
    assert!(!expr_applicable_for_cols(&cols, &call(Volatility::Immutable, vec![col("a")])));
    assert!(!expr_applicable_for_cols(&cols, &call(Volatility::Stable, vec![col("q")])));
    assert!(!expr_applicable_for_cols(&cols, &call(Volatility::Volatile, vec![])));
    assert!(!expr_applicable_for_cols(&cols, &Expr::Other("COUNT(p)".to_string())));
}

#[test]
fn partition_filters_are_exact() {
    let mut options = Options::new(FileFormat::Parquet);
    options.table_partition_cols = strings(&["p"]);
    let table = ready(config("d").with_schema(one_column()).with_listing_options(options));
    let exact = table.supports_filter_pushdown(&op("!=", vec![col("p"), lit("v1")]));
    assert_eq!(exact.unwrap(), TableProviderFilterPushDown::Exact);
    let inexact = table.supports_filter_pushdown(&op("!=", vec![col("a"), lit("v1")]));
    assert_eq!(inexact.unwrap(), TableProviderFilterPushDown::Inexact);
    let constant = table.supports_filter_pushdown(&lit("true"));
    assert_eq!(constant.unwrap(), TableProviderFilterPushDown::Exact);
}

#[test]
fn files_are_split_into_runs() {
    let none: Vec<Vec<u8>> = vec![];
    assert_eq!(split_files(Vec::<u8>::new(), 0), none);
    assert_eq!(split_files(Vec::<u8>::new(), 3), none);
    assert_eq!(split_files(vec![1, 2, 3], 1), vec![vec![1, 2, 3]]);
    assert_eq!(split_files(vec![1, 2, 3], 2), vec![vec![1, 2], vec![3]]);
    assert_eq!(split_files(vec![1, 2, 3], 3), vec![vec![1], vec![2], vec![3]]);
    assert_eq!(split_files(vec![1, 2, 3], usize::MAX), vec![vec![1], vec![2], vec![3]]);
    assert_eq!(split_files(vec![1, 2, 3, 4, 5, 6], 4), vec![vec![1, 2], vec![3, 4], vec![5, 6]]);
}
