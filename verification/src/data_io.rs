//! Batch import of pipes: the decisions taken for each imported row, between the
//! caller's lookups and inserts.
//!
//! For each row the caller asks `begin_row` with the row's pipe number; when a
//! number comes back it looks the number up in the pipe table and tells
//! `after_lookup` whether it exists; when that says to insert, the caller stores
//! the row (with the defaults of `seamless_defaults` or `screen_defaults`) and then
//! calls `after_insert`.  A failed insert ends the import with `insert_failure`.
use vstd::prelude::*;
use crate::query::{SqlValue, params_view};
use crate::query::{SqlParam, SqlQuery};
use crate::error::{AppError, AppErrorView};
use crate::pipes::PipeType;
use crate::text::owned;

verus! {

/// Import and export of pipe data.
pub struct DataIORepo;

/// The running result of an import: rows stored so far and the message of each row
/// that was refused, in row order.
pub struct ImportProgress {
    pub imported: u64,
    pub errors: Vec<String>,
}

/// The message for a row without a pipe number.
pub open spec fn missing_number_message() -> Seq<char> {
    "Missing pipe_number field"@
}

/// The message for a row whose pipe number is already stored.
pub open spec fn duplicate_message(pipe_number: Seq<char>) -> Seq<char> {
    "Pipe number "@ + pipe_number + " already exists"@
}

/// The message of an insert that failed.
pub open spec fn insert_failure_message(pipe_number: Seq<char>, cause: Seq<char>) -> Seq<char> {
    "Failed to insert "@ + pipe_number + ": "@ + cause
}

/// The views of the error messages.
pub open spec fn messages_view(v: Seq<String>) -> Seq<Seq<char>> {
    v.map_values(|m: String| m@)
}

impl ImportProgress {
    /// No row imported, no error.
    pub fn new() -> (r: ImportProgress)
        ensures
            r.imported == 0,
            r.errors@.len() == 0,
    {
        ImportProgress { imported: 0, errors: Vec::new() }
    }

    /// Starts a row.  A row without a pipe number is refused with `Missing
    /// pipe_number field`; otherwise its number is to be looked up.
    pub fn begin_row(&mut self, pipe_number: Option<&str>) -> (r: Option<String>)
        ensures
            final(self).imported == old(self).imported,
            pipe_number matches Some(n) ==> r matches Some(s) && s@ == n@ && messages_view(
                final(self).errors@,
            ) == messages_view(old(self).errors@),
            pipe_number is None ==> r is None && messages_view(final(self).errors@) == messages_view(
                old(self).errors@,
            ).push(missing_number_message()),
    {
        let ghost before = messages_view(self.errors@);
        match pipe_number {
            Some(n) => Some(owned(n)),
            None => {
                self.errors.push(owned("Missing pipe_number field"));
                proof {
                    assert(messages_view(self.errors@) =~= before.push(missing_number_message()));
                }
                None
            },
        }
    }

    /// After the lookup of a row's pipe number: a number already stored is refused
    /// with `Pipe number <n> already exists`; a new one is to be inserted.
    pub fn after_lookup(&mut self, pipe_number: &str, exists: bool) -> (insert: bool)
        ensures
            insert == !exists,
            final(self).imported == old(self).imported,
            exists ==> messages_view(final(self).errors@) == messages_view(old(self).errors@).push(
                duplicate_message(pipe_number@),
            ),
            !exists ==> messages_view(final(self).errors@) == messages_view(old(self).errors@),
    {
        let ghost before = messages_view(self.errors@);
        if exists {
            let mut m = owned("Pipe number ");
            m.append(pipe_number);
            m.append(" already exists");
            self.errors.push(m);
            proof {
                assert(messages_view(self.errors@) =~= before.push(duplicate_message(pipe_number@)));
            }
            false
        } else {
            true
        }
    }

    /// After a row was stored: one more row imported.
    pub fn after_insert(&mut self)
        requires
            old(self).imported < u64::MAX,
        ensures
            final(self).imported == old(self).imported + 1,
            messages_view(final(self).errors@) == messages_view(old(self).errors@),
    {
        self.imported = self.imported + 1;
    }
}

impl DataIORepo {
    /// The error that ends an import whose insert of `pipe_number` failed with `cause`.
    pub fn insert_failure(pipe_number: &str, cause: &str) -> (r: AppError)
        ensures
            r@ == AppErrorView::ImportError(insert_failure_message(pipe_number@, cause@)),
    {
        let mut m = owned("Failed to insert ");
        m.append(pipe_number);
        m.append(": ");
        m.append(cause);
        AppError::ImportError(m)
    }

    /// The lookup of an imported pipe number in the table of `kind`.
    pub fn existing_number_query(kind: PipeType) -> (r: &'static str)
        ensures
            kind == PipeType::Seamless ==> r@
                == "SELECT id FROM seamless_pipes WHERE pipe_number = ? AND deleted_at IS NULL"@,
            kind == PipeType::Screen ==> r@
                == "SELECT id FROM screen_pipes WHERE pipe_number = ? AND deleted_at IS NULL"@,
    {
        match kind {
            PipeType::Seamless => "SELECT id FROM seamless_pipes WHERE pipe_number = ? AND deleted_at IS NULL",
            PipeType::Screen => "SELECT id FROM screen_pipes WHERE pipe_number = ? AND deleted_at IS NULL",
        }
    }
}

/// A given text, or its default.
pub open spec fn or_default(v: Option<&str>, d: Seq<char>) -> Seq<char> {
    match v {
        Some(t) => t@,
        None => d,
    }
}

fn text_or(v: Option<&str>, d: &str) -> (r: String)
    ensures
        r@ == or_default(v, d@),
{
    match v {
        Some(t) => owned(t),
        None => owned(d),
    }
}

/// The texts an imported seamless pipe is stored with: its sub-type (default
/// `casing`), its grade (default `J55`) and its status (default `in_stock`).
pub fn seamless_defaults(pipe_type: Option<&str>, grade: Option<&str>, status: Option<&str>) -> (r: (
    String,
    String,
    String,
))
    ensures
        r.0@ == or_default(pipe_type, "casing"@),
        r.1@ == or_default(grade, "J55"@),
        r.2@ == or_default(status, "in_stock"@),
{
    (text_or(pipe_type, "casing"), text_or(grade, "J55"), text_or(status, "in_stock"))
}

/// The texts an imported screen pipe is stored with: its screen type (default
/// `wire_wrapped`), its base grade (default `J55`) and its status (default
/// `in_stock`).
pub fn screen_defaults(screen_type: Option<&str>, base_grade: Option<&str>, status: Option<&str>) -> (r: (
    String,
    String,
    String,
))
    ensures
        r.0@ == or_default(screen_type, "wire_wrapped"@),
        r.1@ == or_default(base_grade, "J55"@),
        r.2@ == or_default(status, "in_stock"@),
{
    (text_or(screen_type, "wire_wrapped"), text_or(base_grade, "J55"), text_or(status, "in_stock"))
}

/// Stores one imported seamless pipe; its nineteen columns are bound in order.
pub const SEAMLESS_IMPORT_INSERT: &'static str = "INSERT INTO seamless_pipes (pipe_number, batch_number, pipe_type, grade, od, wt, length, weight_per_unit, end_type, coupling_type, coupling_od, coupling_length, heat_number, serial_number, manufacturer, production_date, cert_number, status, notes) VALUES (?, ?, ?, ?, ?, ?, ?, ?, ?, ?, ?, ?, ?, ?, ?, ?, ?, ?, ?)";

/// Stores one imported screen pipe; its eighteen columns are bound in order.
pub const SCREEN_IMPORT_INSERT: &'static str = "INSERT INTO screen_pipes (pipe_number, batch_number, screen_type, slot_size, filtration_grade, base_od, base_wt, base_grade, base_end_type, length, weight_per_unit, heat_number, serial_number, manufacturer, production_date, cert_number, status, notes) VALUES (?, ?, ?, ?, ?, ?, ?, ?, ?, ?, ?, ?, ?, ?, ?, ?, ?, ?)";

/// The seamless pipes not shipped out, as the inventory export lists them.
pub const SEAMLESS_EXPORT: &'static str = "SELECT sp.id, sp.pipe_number, 'seamless', sp.grade, sp.od, sp.wt, sp.status, sp.location_id, sp.heat_number FROM seamless_pipes sp WHERE sp.deleted_at IS NULL AND sp.status != 'outbound'";

/// The screen pipes not shipped out, as the inventory export lists them.
pub const SCREEN_EXPORT: &'static str = "SELECT sp.id, sp.pipe_number, 'screen', sp.base_grade, sp.base_od, sp.base_wt, sp.status, sp.location_id, sp.heat_number FROM screen_pipes sp WHERE sp.deleted_at IS NULL AND sp.status != 'outbound'";

impl DataIORepo {
    /// The insert of one imported pipe into the table of `kind`.
    pub fn import_insert_statement(kind: PipeType) -> (r: &'static str)
        ensures
            kind == PipeType::Seamless ==> r@ == SEAMLESS_IMPORT_INSERT@,
            kind == PipeType::Screen ==> r@ == SCREEN_IMPORT_INSERT@,
    {
        match kind {
            PipeType::Seamless => SEAMLESS_IMPORT_INSERT,
            PipeType::Screen => SCREEN_IMPORT_INSERT,
        }
    }

    /// The pipes of `kind` that the inventory export lists: not deleted, not shipped out.
    pub fn export_inventory_statement(kind: PipeType) -> (r: &'static str)
        ensures
            kind == PipeType::Seamless ==> r@ == SEAMLESS_EXPORT@,
            kind == PipeType::Screen ==> r@ == SCREEN_EXPORT@,
    {
        match kind {
            PipeType::Seamless => SEAMLESS_EXPORT,
            PipeType::Screen => SCREEN_EXPORT,
        }
    }
}

/// Every live seamless pipe with all its columns, by id: the seamless sheet of a data export.
pub const EXPORT_EXPORT_SEAMLESS_PIPES: &'static str = "SELECT id, pipe_number, batch_number, pipe_type, grade, od, wt, length, weight_per_unit, end_type, coupling_type, coupling_od, coupling_length, heat_number, serial_number, manufacturer, production_date, cert_number, location_id, status, notes FROM seamless_pipes WHERE deleted_at IS NULL ORDER BY id";

/// Every live screen pipe with all its columns, by id: the screen sheet of a data export.
pub const EXPORT_EXPORT_SCREEN_PIPES: &'static str = "SELECT id, pipe_number, batch_number, screen_type, slot_size, filtration_grade, base_od, base_wt, base_grade, base_end_type, length, weight_per_unit, heat_number, serial_number, manufacturer, production_date, cert_number, location_id, status, notes FROM screen_pipes WHERE deleted_at IS NULL ORDER BY id";

/// Every live quality certificate, by id: the certificate sheet of a data export.
pub const EXPORT_EXPORT_QUALITY_CERTS: &'static str = "SELECT id, cert_number, pipe_type, pipe_id, cert_date, result, inspector, inspection_body, notes FROM quality_certs WHERE deleted_at IS NULL ORDER BY id";

impl DataIORepo {
    /// Every live seamless pipe with all its columns, by id: the seamless sheet of a data export.
    pub fn export_seamless_pipes_query() -> (r: SqlQuery)
        ensures
            r@.sql == EXPORT_EXPORT_SEAMLESS_PIPES@,
            r@.params.len() == 0,
    {
        let mut params: Vec<SqlParam> = Vec::new();
        SqlQuery { sql: owned(EXPORT_EXPORT_SEAMLESS_PIPES), params }
    }

    /// Every live screen pipe with all its columns, by id: the screen sheet of a data export.
    pub fn export_screen_pipes_query() -> (r: SqlQuery)
        ensures
            r@.sql == EXPORT_EXPORT_SCREEN_PIPES@,
            r@.params.len() == 0,
    {
        let mut params: Vec<SqlParam> = Vec::new();
        SqlQuery { sql: owned(EXPORT_EXPORT_SCREEN_PIPES), params }
    }

    /// Every live quality certificate, by id: the certificate sheet of a data export.
    pub fn export_quality_certs_query() -> (r: SqlQuery)
        ensures
            r@.sql == EXPORT_EXPORT_QUALITY_CERTS@,
            r@.params.len() == 0,
    {
        let mut params: Vec<SqlParam> = Vec::new();
        SqlQuery { sql: owned(EXPORT_EXPORT_QUALITY_CERTS), params }
    }
}

/// Every live purchase order, by id: the order sheet of a data export.
pub const EXPORT_PURCHASE_ORDERS: &'static str = "SELECT id, order_no, supplier_id, order_date, status, total_amount, notes, created_by FROM purchase_orders WHERE deleted_at IS NULL ORDER BY id";

/// Counts the items of purchase order `order_id`, for its export row.
pub const EXPORT_PURCHASE_ITEM_COUNT: &'static str = "SELECT COUNT(*) FROM purchase_order_items WHERE order_id = ?";

/// Every live sales order, by id: the sales sheet of a data export.
pub const EXPORT_SALES_ORDERS: &'static str = "SELECT id, order_no, customer_id, order_date, status, total_amount, notes, created_by FROM sales_orders WHERE deleted_at IS NULL ORDER BY id";

/// Counts the items of sales order `order_id`, for its export row.
pub const EXPORT_SALES_ITEM_COUNT: &'static str = "SELECT COUNT(*) FROM sales_order_items WHERE order_id = ?";

impl DataIORepo {
    /// Every live purchase order, by id: the order sheet of a data export.
    pub fn export_purchase_orders_query() -> (r: SqlQuery)
        ensures
            r@.sql == EXPORT_PURCHASE_ORDERS@,
            r@.params.len() == 0,
    {
        let mut params: Vec<SqlParam> = Vec::new();
        SqlQuery { sql: owned(EXPORT_PURCHASE_ORDERS), params }
    }

    /// Counts the items of purchase order `order_id`, for its export row.
    pub fn purchase_item_count_query(order_id: i64) -> (r: SqlQuery)
        ensures
            r@.sql == EXPORT_PURCHASE_ITEM_COUNT@,
            r@.params == seq![SqlValue::Int(order_id)],
    {
        let mut params: Vec<SqlParam> = Vec::new();
        params.push(SqlParam::Int(order_id));
        proof {
            assert(params_view(params@) =~= seq![SqlValue::Int(order_id)]);
        }
        SqlQuery { sql: owned(EXPORT_PURCHASE_ITEM_COUNT), params }
    }

    /// Every live sales order, by id: the sales sheet of a data export.
    pub fn export_sales_orders_query() -> (r: SqlQuery)
        ensures
            r@.sql == EXPORT_SALES_ORDERS@,
            r@.params.len() == 0,
    {
        let mut params: Vec<SqlParam> = Vec::new();
        SqlQuery { sql: owned(EXPORT_SALES_ORDERS), params }
    }

    /// Counts the items of sales order `order_id`, for its export row.
    pub fn sales_item_count_query(order_id: i64) -> (r: SqlQuery)
        ensures
            r@.sql == EXPORT_SALES_ITEM_COUNT@,
            r@.params == seq![SqlValue::Int(order_id)],
    {
        let mut params: Vec<SqlParam> = Vec::new();
        params.push(SqlParam::Int(order_id));
        proof {
            assert(params_view(params@) =~= seq![SqlValue::Int(order_id)]);
        }
        SqlQuery { sql: owned(EXPORT_SALES_ITEM_COUNT), params }
    }
}

} // verus!
