# framework_plan

Verified rendering of query results as text ("show string") and the catalog
metadata of tables, for a DataFusion-based engine.

- `src/` is the verified library (Verus):
  - `escape.rs`: escaping of control characters and byte-limited truncation.
  - `html.rs`: HTML text encoding through `html-escape`.
  - `text.rs`: joining, decimal numerals, padding.
  - `batch.rs`: the cells of an Arrow record batch as text, through `arrow-cast`.
  - `comfy.rs`: table layout through `comfy-table`.
  - `show_string.rs`: the bordered, vertical and HTML renderings.
  - `node.rs`: the show-string plan node and its DataFusion schema.
  - `table.rs`: table kinds and table metadata.
- `app/` holds what Verus does not see: the DataFusion trait implementation of
  the plan node, Arrow schemas, the async catalog operations and the
  serializable form of the table metadata.
- `tests/` runs the library on concrete values.
