# erp_v2

The verified core of a small ERP backend (items, stock, pipes, purchasing, sales,
contracts, quality certificates, finance, approvals), written in Verus.

- `src/` — the library, every function verified. It decides what the backend sends to
  SQLite: the text of each statement and the order of its parameters (filters, paging,
  sort allowlists, partial updates, escaped literals), and it does the computing that
  follows a read: money sums over `rust_decimal`, report grouping, stock merges,
  document numbering, status rules, import accounting, the response envelope, and the
  route table with the guards before each route.
- `app/` — the edge that Verus does not see: running the statements with `sqlx`,
  serialising responses with `serde`, the HTTP layers, and the few computations on
  floating point.
- `tests/` — the library's behaviour on concrete values.

Contracts are stated over views (`Seq<char>` for texts, `SqlValue` sequences for bound
parameters); the calls into `rust_decimal` and `uuid` stand behind small trusted
wrappers in `src/money.rs` and `src/response.rs`, and `String::push`, which vstd leaves
unspecified, behind one in `src/text.rs`.  String equality and integer parsing are
verified loops.
