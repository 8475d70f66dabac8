# minerva

Definitions and change planning for a Minerva ETL instance (trend stores,
attribute stores, materializations, relations, virtual entities, triggers),
written in Verus.

- `src/` is the verified library: the instance model and its comparison into
  changes (trend stores down to the data types and extra data of their trends,
  attribute stores, materializations), the SQL statements each change runs, the
  decisions of entity set changes, trend materialization plans and
  checks, trigger templates and the triggers built from them, the dependency
  graph of materializations, and the parsing of intervals. Each public function
  carries a contract, and the laws of the library (such as that an instance
  compared with itself yields no changes) are stated and proved as proof
  functions.
- `tests/` runs the library on concrete values.
- `app/` is the command-line program around the library: database connections,
  file reading and the service loops.
