# Listing tables

A table whose rows lie in the files of an object store. The table lists the files when it is
scanned, reads their statistics, and hands a file format the groups of files to read.

- `src/` is the library, verified with Verus. It decides; it does no I/O.
  - `config`: the configuration of a table, and inference of options from its path
  - `options`: options of a table, and the steps in which a schema is inferred
  - `table`: creation of tables, their schema, and which filters they apply
  - `scan`: the steps in which a scan is planned
  - `schema`: partition columns and projection, and what is relied on of the `arrow` crate
  - `expr`: filter expressions that partition columns decide
  - `path`: the suffix of a path, and the partition columns that its folders name
  - `grouping`: distribution of files over partitions
  - `format`, `files`, `error`: the types that the others share
  - `laws`: what holds across these modules
- `app/` is the asynchronous side: it asks object stores, file formats and an engine for what the
  library calls for, and hands back what came of it.
- `tests/` runs the library over a store in memory.
