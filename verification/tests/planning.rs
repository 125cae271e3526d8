//! Tables over a store in memory, created and scanned step by step.

use arrow::datatypes::{DataType, Field, Schema, SchemaRef};
use listing_table::config::ListingTableConfig;
use listing_table::error::DataFusionError;
use listing_table::expr::Expr;
use listing_table::files::{FileMeta, PartitionedFile, SizedFile, Statistics};
use listing_table::format::FileFormat;
use listing_table::options::{ListingOptions, SchemaAction, SchemaEvent};
use listing_table::scan::{
    EmptyExec, FileAction, FileEvent, FileScanConfig, ListAction, ListEvent, ListRequest,
    ScanAction, ScanEvent, ScanPlan,
};
use listing_table::table::{ListingTable, PendingStep, TableStep};
use std::cell::Cell;
use std::sync::Arc;

/// A store of files that are known by path and size.
struct TestObjectStore {
    files: Vec<(String, u64)>,
}

impl TestObjectStore {
    fn new_arc(files: &[(&str, u64)]) -> Arc<TestObjectStore> {
        let files = files.iter().map(|(path, size)| (path.to_string(), *size)).collect();
        Arc::new(TestObjectStore { files })
    }

    fn list_file_with_suffix(&self, prefix: &str, suffix: &str) -> Vec<FileMeta> {
        self.files
            .iter()
            .filter(|(path, _)| path.starts_with(prefix) && path.ends_with(suffix))
            .map(|(path, size)| FileMeta {
                sized_file: SizedFile { path: path.clone(), size: *size },
            })
            .collect()
    }
}

/// No format is supplied from outside.
enum NoFormat {}

type Options = ListingOptions<NoFormat>;
type Config = ListingTableConfig<TestObjectStore, NoFormat>;
type Table = ListingTable<TestObjectStore, NoFormat>;

fn columns(schema: &Schema) -> Vec<String> {
    schema.fields().iter().map(|field| field.name().clone()).collect()
}

fn schema_of(names: &[&str]) -> SchemaRef {
    let fields = names.iter().map(|name| Field::new(name, DataType::Boolean, false)).collect();
    Arc::new(Schema::new(fields))
}

fn col(name: &str) -> Expr {
    Expr::Column(name.to_string())
}

fn lit(text: &str) -> Expr {
    Expr::Literal(text.to_string())
}

fn not_eq(left: Expr, right: Expr) -> Expr {
    Expr::Operation { op: "!=".to_string(), args: vec![left, right] }
}

/// The value that the folders of `path` give to the partition column `name`.
fn partition_value(path: &str, name: &str) -> Option<String> {
    path.split('/').find_map(|folder| folder.strip_prefix(&format!("{}=", name)).map(String::from))
}

/// The text of an operand, which is a partition column of `path` or a constant.
fn operand(path: &str, expr: &Expr) -> Option<String> {
    match expr {
        Expr::Column(name) => partition_value(path, name),
        Expr::Literal(text) => Some(text.clone()),
        _ => None,
    }
}

fn passes(path: &str, filter: &Expr) -> bool {
    match filter {
        Expr::Operation { op, args } if op == "!=" => {
            operand(path, &args[0]) != operand(path, &args[1])
        }
        _ => true,
    }
}

fn pruned_partition_list(request: &ListRequest<TestObjectStore>) -> Vec<PartitionedFile> {
    request
        .object_store
        .list_file_with_suffix(request.table_path, request.file_extension)
        .into_iter()
        .filter(|meta| request.filters.iter().all(|f| passes(&meta.sized_file.path, f)))
        .map(|file_meta| {
            let partition_values = request
                .table_partition_cols
                .iter()
                .filter_map(|name| partition_value(&file_meta.sized_file.path, name))
                .collect();
            PartitionedFile { file_meta, partition_values }
        })
        .collect()
}

/// Creates the table of `config`; where a schema is asked for, the files are all of schema `found`.
fn create_table(config: Config, found: SchemaRef) -> Result<Table, DataFusionError> {
    let mut pending = match Table::new(config)? {
        TableStep::Ready(table) => return Ok(table),
        TableStep::NeedsSchema(pending) => pending,
    };
    let mut event = SchemaEvent::Start;
    loop {
        match pending.step(event) {
            PendingStep::Finished(result) => return result,
            PendingStep::Continue(next, action) => {
                event = match action {
                    SchemaAction::ListFiles { object_store, path, suffix } => {
                        if object_store.list_file_with_suffix(&path, &suffix).is_empty() {
                            let error = DataFusionError::External("no files".to_string());
                            SchemaEvent::Listed(Err(error))
                        } else {
                            SchemaEvent::Listed(Ok(()))
                        }
                    }
                    SchemaAction::InferSchema { .. } => SchemaEvent::Inferred(Ok(found.clone())),
                    _ => panic!("no reader was asked for"),
                };
                pending = next;
            }
        }
    }
}

/// The statistics that the files of the tests have.
fn file_statistics() -> Statistics {
    Statistics {
        num_rows: Some(8),
        total_byte_size: Some(671),
        column_statistics: None,
        is_exact: true,
    }
}

/// Collects the statistics of one file, and counts the readers that are opened.
fn collect_one(
    table: &Table,
    file: PartitionedFile,
    opened: &Cell<usize>,
) -> Result<(PartitionedFile, Statistics), DataFusionError> {
    let mut event: FileEvent<String> = FileEvent::Listed(Ok(file));
    loop {
        event = match table.collect_file_statistics(event) {
            FileAction::OpenReader { sized_file, part_file, .. } => {
                opened.set(opened.get() + 1);
                FileEvent::ReaderOpened(part_file, Ok(sized_file.path))
            }
            FileAction::InferStatistics { reader, part_file, .. } => {
                assert_eq!(reader, part_file.file_meta.sized_file.path);
                FileEvent::StatisticsInferred(part_file, Ok(file_statistics()))
            }
            FileAction::Done(result) => return result,
        }
    }
}

/// The files with the statistics of all of them together.
fn get_statistics(
    table: &Table,
    files: Vec<PartitionedFile>,
    opened: &Cell<usize>,
) -> Result<(Vec<PartitionedFile>, Statistics), DataFusionError> {
    let mut total = Statistics::default();
    let mut kept = vec![];
    for file in files {
        let (file, statistics) = collect_one(table, file, opened)?;
        if let Some(rows) = statistics.num_rows {
            total.num_rows = Some(total.num_rows.unwrap_or(0) + rows);
        }
        if let Some(bytes) = statistics.total_byte_size {
            total.total_byte_size = Some(total.total_byte_size.unwrap_or(0) + bytes);
        }
        kept.push(file);
    }
    Ok((kept, total))
}

fn list_files(
    table: &Table,
    filters: &[Expr],
) -> Result<(Vec<Vec<PartitionedFile>>, Statistics), DataFusionError> {
    let opened = Cell::new(0);
    let mut files = vec![];
    let mut event = ListEvent::Start;
    loop {
        event = match table.list_files_for_scan(filters, None, event) {
            ListAction::ListFiles(request) => {
                files = pruned_partition_list(&request);
                ListEvent::Listed(Ok(()))
            }
            ListAction::CollectStatistics(_) => {
                ListEvent::Collected(get_statistics(table, std::mem::take(&mut files), &opened))
            }
            ListAction::Done(result) => return result,
        }
    }
}

/// Scans `table`; the plan of a format is what it was made from.
fn scan(
    table: &Table,
    projection: &Option<Vec<usize>>,
    filters: &[Expr],
    limit: Option<usize>,
) -> Result<ScanPlan<FileScanConfig<TestObjectStore>>, DataFusionError> {
    let opened = Cell::new(0);
    let mut files = vec![];
    let mut event = ScanEvent::Listing(ListEvent::Start);
    loop {
        event = match table.scan(projection, filters, limit, event) {
            ScanAction::ListFiles(request) => {
                files = pruned_partition_list(&request);
                ScanEvent::Listing(ListEvent::Listed(Ok(())))
            }
            ScanAction::CollectStatistics(request) => {
                assert_eq!(columns(&request.schema), columns(&table.schema()));
                assert_eq!(request.limit, limit);
                let collected = get_statistics(table, std::mem::take(&mut files), &opened);
                ScanEvent::Listing(ListEvent::Collected(collected))
            }
            ScanAction::CreatePhysicalPlan { config, .. } => ScanEvent::Planned(Ok(config)),
            ScanAction::Done(result) => return result,
        }
    }
}

fn empty_plan(
    result: Result<ScanPlan<FileScanConfig<TestObjectStore>>, DataFusionError>,
) -> EmptyExec {
    match result {
        Ok(ScanPlan::Empty(plan)) => plan,
        _ => panic!("not an empty plan"),
    }
}

fn files_plan(
    result: Result<ScanPlan<FileScanConfig<TestObjectStore>>, DataFusionError>,
) -> FileScanConfig<TestObjectStore> {
    match result {
        Ok(ScanPlan::Files(config)) => config,
        _ => panic!("not a plan of files"),
    }
}

fn paths(groups: &[Vec<PartitionedFile>]) -> Vec<Vec<String>> {
    groups
        .iter()
        .map(|group| group.iter().map(|f| f.file_meta.sized_file.path.clone()).collect())
        .collect()
}

fn load_table(name: &str) -> Table {
    let filename = format!("testdata/{}", name);
    let store = TestObjectStore::new_arc(&[(&filename, 1851)]);
    let config = Config::new(store, filename);
    match create_table(config, schema_of(&["id", "bool_col"])) {
        Ok(table) => table,
        Err(error) => panic!("{:?}", error),
    }
}

#[test]
fn read_single_file() {
    let table = load_table("alltypes_plain.parquet");
    let projection = None;
    let exec = files_plan(scan(&table, &projection, &[], None));

    assert_eq!(exec.file_groups.len(), 1);
    assert_eq!(exec.file_groups[0].len(), 1);

    // test metadata
    assert_eq!(exec.statistics.num_rows, Some(8));
    assert_eq!(exec.statistics.total_byte_size, Some(671));
}

#[test]
fn load_table_stats_by_default() {
    let filename = "testdata/alltypes_plain.parquet";
    let store = TestObjectStore::new_arc(&[(filename, 1851)]);
    let opt = Options::new(FileFormat::Parquet);
    let found = SchemaEvent::Inferred(Ok(schema_of(&["id", "bool_col"])));
    let schema = match opt.infer_schema(store.clone(), filename, found) {
        SchemaAction::Done(Ok(schema)) => schema,
        _ => panic!("the schema is there"),
    };
    let config = Config::new(store, filename.to_string());
    let table = match create_table(config, schema) {
        Ok(table) => table,
        Err(error) => panic!("{:?}", error),
    };
    let exec = files_plan(scan(&table, &None, &[], None));
    assert_eq!(exec.statistics.num_rows, Some(8));
    assert_eq!(exec.statistics.total_byte_size, Some(671));
}

fn table_with_p1() -> Table {
    let path = String::from("table/p1=v1/file.avro");
    let store = TestObjectStore::new_arc(&[(&path, 100)]);
    let config = Config::new(store, path);
    match create_table(config, schema_of(&["a"])) {
        Ok(table) => table,
        Err(error) => panic!("{:?}", error),
    }
}

#[test]
fn read_empty_table() {
    let table = table_with_p1();
    assert_eq!(columns(&table.schema()), vec!["a".to_owned(), "p1".to_owned()]);

    // this will filter out the only file in the store
    let filter = not_eq(col("p1"), lit("v1"));

    let scan = empty_plan(scan(&table, &None, &[filter], None));

    assert!(!scan.produce_one_row);
    assert_eq!(columns(&scan.schema), vec!["a".to_owned(), "p1".to_owned()]);
}

#[test]
fn test_assert_list_files_for_scan_grouping() {
    // more expected partitions than files
    assert_list_files_for_scan_grouping(
        &[
            "bucket/key-prefix/file0",
            "bucket/key-prefix/file1",
            "bucket/key-prefix/file2",
            "bucket/key-prefix/file3",
            "bucket/key-prefix/file4",
        ],
        "bucket/key-prefix/",
        12,
        5,
    );

    // as many expected partitions as files
    assert_list_files_for_scan_grouping(
        &[
            "bucket/key-prefix/file0",
            "bucket/key-prefix/file1",
            "bucket/key-prefix/file2",
            "bucket/key-prefix/file3",
        ],
        "bucket/key-prefix/",
        4,
        4,
    );

    // more files as expected partitions
    assert_list_files_for_scan_grouping(
        &[
            "bucket/key-prefix/file0",
            "bucket/key-prefix/file1",
            "bucket/key-prefix/file2",
            "bucket/key-prefix/file3",
            "bucket/key-prefix/file4",
        ],
        "bucket/key-prefix/",
        2,
        2,
    );

    // no files => no groups
    assert_list_files_for_scan_grouping(&[], "bucket/key-prefix/", 2, 0);

    // files that don't match the prefix
    assert_list_files_for_scan_grouping(
        &[
            "bucket/key-prefix/file0",
            "bucket/key-prefix/file1",
            "bucket/other-prefix/roguefile",
        ],
        "bucket/key-prefix/",
        10,
        2,
    );
}

fn grouping_table(files: &[&str], table_prefix: &str, target_partitions: usize) -> Table {
    let mock_store =
        TestObjectStore::new_arc(&files.iter().map(|f| (*f, 10)).collect::<Vec<_>>());
    let opt = ListingOptions {
        file_extension: "".to_owned(),
        format: FileFormat::Avro,
        table_partition_cols: vec![],
        target_partitions,
        collect_stat: true,
    };
    let config = Config::new(mock_store, table_prefix.to_owned())
        .with_listing_options(opt)
        .with_schema(schema_of(&["a"]));
    match create_table(config, schema_of(&[])) {
        Ok(table) => table,
        Err(error) => panic!("{:?}", error),
    }
}

/// Check that the files listed by the table match the specified `output_partitioning`
/// when the object store contains `files`.
fn assert_list_files_for_scan_grouping(
    files: &[&str],
    table_prefix: &str,
    target_partitions: usize,
    output_partitioning: usize,
) {
    let table = grouping_table(files, table_prefix, target_partitions);
    let (file_list, _) = match list_files(&table, &[]) {
        Ok(listed) => listed,
        Err(error) => panic!("{:?}", error),
    };
    assert_eq!(file_list.len(), output_partitioning);
}

#[test]
fn groups_keep_the_order_of_the_files() {
    let files = ["d/f0", "d/f1", "d/f2", "d/f3", "d/f4"];
    let table = grouping_table(&files, "d/", 2);
    let (groups, statistics) = match list_files(&table, &[]) {
        Ok(listed) => listed,
        Err(error) => panic!("{:?}", error),
    };
    assert_eq!(paths(&groups), vec![vec!["d/f0", "d/f1", "d/f2"], vec!["d/f3", "d/f4"]]);
    assert_eq!(statistics.num_rows, Some(40));
    assert_eq!(statistics.total_byte_size, Some(3355));

    // four groups are wanted, and three of two files hold them all
    let table = grouping_table(&files, "d/", 4);
    let exec = files_plan(scan(&table, &None, &[], Some(7)));
    let expected = vec![vec!["d/f0", "d/f1"], vec!["d/f2", "d/f3"], vec!["d/f4"]];
    assert_eq!(paths(&exec.file_groups), expected);
    assert_eq!(exec.limit, Some(7));

    // a scan reads the groups that are listed
    match list_files(&table, &[]) {
        Ok((groups, statistics)) => {
            assert_eq!(groups, exec.file_groups);
            assert_eq!(statistics, exec.statistics);
        }
        Err(error) => panic!("{:?}", error),
    }
}

#[test]
fn partitioned_files_are_planned() {
    let table = table_with_p1();
    let filter = not_eq(col("p1"), lit("v2"));
    let exec = files_plan(scan(&table, &Some(vec![1]), &[filter], None));
    assert_eq!(paths(&exec.file_groups), vec![vec!["table/p1=v1/file.avro"]]);
    assert_eq!(exec.file_groups[0][0].partition_values, vec!["v1".to_string()]);
    assert_eq!(exec.file_groups[0][0].file_meta.sized_file.size, 100);
    assert_eq!(exec.table_partition_cols, vec!["p1".to_string()]);
    assert_eq!(exec.projection, Some(vec![1]));
    assert_eq!(exec.limit, None);
    assert_eq!(columns(&exec.file_schema), vec!["a".to_string()]);
    assert_eq!(exec.object_store.files.len(), 1);
}

#[test]
fn empty_plans_are_projected() {
    let table = table_with_p1();
    let filter = || [not_eq(col("p1"), lit("v1"))];
    let plan = empty_plan(scan(&table, &Some(vec![1, 0, 1]), &filter(), None));
    assert_eq!(columns(&plan.schema), vec!["p1", "a", "p1"]);
    let plan = empty_plan(scan(&table, &Some(vec![]), &filter(), None));
    assert!(columns(&plan.schema).is_empty());

    match scan(&table, &Some(vec![0, 2]), &filter(), None) {
        Err(DataFusionError::ArrowError(error)) => {
            let text = error.to_string();
            assert!(text.contains("project index 2 out of bounds, max field 2"));
        }
        _ => panic!("column 2 is none of the table"),
    }
}

#[test]
fn default_options_leave_statistics_out() {
    let opt = Options::new(FileFormat::Csv);
    let store = TestObjectStore::new_arc(&[("d/f.csv", 3)]);
    let config = Config::new(store, "d/".to_string())
        .with_listing_options(opt)
        .with_schema(schema_of(&["a"]));
    let table = match create_table(config, schema_of(&[])) {
        Ok(table) => table,
        Err(error) => panic!("{:?}", error),
    };
    let opened = Cell::new(0);
    let file = PartitionedFile {
        file_meta: FileMeta { sized_file: SizedFile { path: "d/f.csv".to_string(), size: 3 } },
        partition_values: vec![],
    };
    match collect_one(&table, file, &opened) {
        Ok((file, statistics)) => {
            assert_eq!(file.file_meta.sized_file.path, "d/f.csv");
            assert_eq!(statistics, Statistics::default());
        }
        Err(error) => panic!("{:?}", error),
    }
    assert_eq!(opened.get(), 0);
    let exec = files_plan(scan(&table, &None, &[], None));
    assert_eq!(exec.statistics, Statistics::default());
}

fn failure(text: &str) -> DataFusionError {
    DataFusionError::External(text.to_string())
}

fn is_failure(error: &DataFusionError, text: &str) -> bool {
    matches!(error, DataFusionError::External(found) if found == text)
}

#[test]
fn failures_of_files_are_reported() {
    let table = table_with_p1();
    let file = || PartitionedFile {
        file_meta: FileMeta { sized_file: SizedFile { path: "f".to_string(), size: 1 } },
        partition_values: vec![],
    };
    let events: Vec<FileEvent<()>> = vec![
        FileEvent::Listed(Err(failure("gone"))),
        FileEvent::ReaderOpened(file(), Err(failure("gone"))),
        FileEvent::StatisticsInferred(file(), Err(failure("gone"))),
    ];
    for event in events {
        match table.collect_file_statistics(event) {
            FileAction::Done(Err(error)) => assert!(is_failure(&error, "gone")),
            _ => panic!("the failure was lost"),
        }
    }
}

#[test]
fn failures_end_scans() {
    let table = table_with_p1();
    let events: Vec<ScanEvent<()>> = vec![
        ScanEvent::Listing(ListEvent::Listed(Err(failure("down")))),
        ScanEvent::Listing(ListEvent::Collected(Err(failure("down")))),
        ScanEvent::Planned(Err(failure("down"))),
    ];
    for event in events {
        match table.scan(&None, &[], None, event) {
            ScanAction::Done(Err(error)) => assert!(is_failure(&error, "down")),
            _ => panic!("the failure was lost"),
        }
    }
    match table.list_files_for_scan(&[], None, ListEvent::Collected(Err(failure("down")))) {
        ListAction::Done(Err(error)) => assert!(is_failure(&error, "down")),
        _ => panic!("the failure was lost"),
    }
}

#[test]
fn failed_listings_end_the_creation() {
    let store = TestObjectStore::new_arc(&[("other/f.json", 3)]);
    let config = Config::new(store, "d/f.json".to_string());
    match create_table(config, schema_of(&["a"])) {
        Err(error) => assert!(is_failure(&error, "no files")),
        Ok(_) => panic!("there is no file"),
    }
}

#[test]
fn inferred_schemas_serve_as_given_ones() {
    let schema = schema_of(&["x", "y"]);
    let store = TestObjectStore::new_arc(&[("d/f.csv", 3)]);
    let config = Config::new(store.clone(), "d/f.csv".to_string());
    let inferred = match create_table(config, schema.clone()) {
        Ok(table) => table,
        Err(error) => panic!("{:?}", error),
    };
    let config = Config::new(store, "d/f.csv".to_string()).with_schema(schema);
    let given = match create_table(config, schema_of(&["unused"])) {
        Ok(table) => table,
        Err(error) => panic!("{:?}", error),
    };
    assert_eq!(inferred.schema(), given.schema());
    assert_eq!(inferred.table_path(), given.table_path());
    assert_eq!(inferred.options().file_extension, given.options().file_extension);
    assert_eq!(inferred.options().target_partitions, given.options().target_partitions);
}
