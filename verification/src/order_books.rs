//! The order books of the sales and purchase ledgers: their list and count
//! statements, which write the filter values into the statement as escaped
//! literals, and the searchable supplier and customer directories.
use vstd::prelude::*;
use crate::query::{clause_if, conditions_text, params_view, SqlParam, SqlQuery, SqlValue};
use crate::pipes::store_offset;
use crate::text::{
    append_joined_strings, escape_quotes, escape_sql_literal, join_with, like_contains, owned, strings_view,
};

verus! {

/// Sales orders of the order book.
pub struct SalesOrderRepo;

/// Items of sales orders in the order book.
pub struct SalesOrderItemRepo;

/// Items of purchase orders in the order book.
pub struct PurchaseOrderItemRepo;

/// Purchase orders with supplier and operator names; the conditions follow.
pub const PURCHASE_BOOK_ROWS: &'static str = "SELECT po.id, po.order_no, po.supplier_id, po.status, po.total_amount, po.notes, po.operator_id, po.created_at, po.updated_at,
                    s.name as supplier_name,
                    u.display_name as operator_name
             FROM purchase_orders po
             LEFT JOIN suppliers s ON s.id = po.supplier_id
             LEFT JOIN users u ON u.id = po.operator_id
             WHERE 1=1";

/// Sales orders with customer and operator names; the conditions follow.
pub const SALES_BOOK_ROWS: &'static str = "SELECT so.id, so.order_no, so.customer_id, so.status, so.total_amount, so.notes, so.operator_id, so.created_at, so.updated_at,
                    c.name as customer_name,
                    u.display_name as operator_name
             FROM sales_orders so
             LEFT JOIN customers c ON c.id = so.customer_id
             LEFT JOIN users u ON u.id = so.operator_id
             WHERE 1=1";

/// Counts purchase orders; the conditions follow.
pub const PURCHASE_BOOK_COUNT: &'static str = "SELECT COUNT(*) FROM purchase_orders po WHERE 1=1";

/// Counts sales orders; the conditions follow.
pub const SALES_BOOK_COUNT: &'static str = "SELECT COUNT(*) FROM sales_orders so WHERE 1=1";

/// Newest purchase orders first, one page.
pub const PURCHASE_BOOK_PAGE: &'static str = " ORDER BY po.created_at DESC LIMIT ? OFFSET ?";

/// Newest sales orders first, one page.
pub const SALES_BOOK_PAGE: &'static str = " ORDER BY so.created_at DESC LIMIT ? OFFSET ?";

/// Purchase order status up to its quoted value.
pub const PO_STATUS_IS: &'static str = "po.status = '";

/// Purchase order supplier up to its quoted value.
pub const PO_SUPPLIER_IS: &'static str = "po.supplier_id = '";

/// Sales order status up to its quoted value.
pub const SO_STATUS_IS: &'static str = "so.status = '";

/// Sales order customer up to its quoted value.
pub const SO_CUSTOMER_IS: &'static str = "so.customer_id = '";

/// The two order books.
#[derive(PartialEq, Eq, Structural, Clone, Copy)]
pub enum Book {
    Sales,
    Purchase,
}

/// A filter value that is given and not empty.
pub open spec fn present(v: Option<&str>) -> bool {
    v matches Some(t) && t@.len() > 0
}

/// `prefix`, the escaped value and a closing quote.
pub open spec fn quoted(prefix: Seq<char>, v: Seq<char>) -> Seq<char> {
    prefix + escape_quotes(v) + seq!['\'']
}

/// The status condition start of a book.
pub open spec fn book_status_is(b: Book) -> Seq<char> {
    match b {
        Book::Sales => SO_STATUS_IS@,
        Book::Purchase => PO_STATUS_IS@,
    }
}

/// The party (customer or supplier) condition start of a book.
pub open spec fn book_party_is(b: Book) -> Seq<char> {
    match b {
        Book::Sales => SO_CUSTOMER_IS@,
        Book::Purchase => PO_SUPPLIER_IS@,
    }
}

/// The conditions of a book's list and count: the status and the party, each only
/// when given and not empty.
pub open spec fn book_clauses(b: Book, status: Option<&str>, party: Option<&str>) -> Seq<Seq<char>> {
    clause_if(present(status), quoted(book_status_is(b), status.unwrap()@)) + clause_if(
        present(party),
        quoted(book_party_is(b), party.unwrap()@),
    )
}

fn push_quoted_if(conds: &mut Vec<String>, prefix: &str, v: Option<&str>)
    ensures
        strings_view(final(conds)@) == strings_view(old(conds)@) + clause_if(
            present(v),
            quoted(prefix@, v.unwrap()@),
        ),
{
    let ghost c0 = strings_view(conds@);
    match v {
        Some(t) => {
            if t.unicode_len() > 0 {
                let mut c = owned(prefix);
                let e = escape_sql_literal(t);
                c.append(e.as_str());
                c.append("'");
                proof {
                    reveal_strlit("'");
                    assert(c@ =~= quoted(prefix@, t@));
                }
                conds.push(c);
            }
        },
        None => {},
    }
    proof {
        assert(strings_view(conds@) =~= c0 + clause_if(present(v), quoted(prefix@, v.unwrap()@)));
    }
}

fn book_conditions(b: Book, status: Option<&str>, party: Option<&str>) -> (r: Vec<String>)
    ensures
        strings_view(r@) == book_clauses(b, status, party),
{
    let (s, p) = match b {
        Book::Sales => (SO_STATUS_IS, SO_CUSTOMER_IS),
        Book::Purchase => (PO_STATUS_IS, PO_SUPPLIER_IS),
    };
    let mut conds: Vec<String> = Vec::new();
    proof {
        assert(strings_view(conds@) =~= Seq::<Seq<char>>::empty());
    }
    push_quoted_if(&mut conds, s, status);
    push_quoted_if(&mut conds, p, party);
    proof {
        assert(strings_view(conds@) =~= book_clauses(b, status, party));
    }
    conds
}

fn with_conditions(head: &str, conds: &Vec<String>) -> (r: String)
    ensures
        r@ == head@ + conditions_text(strings_view(conds@), " AND "@),
{
    let mut sql = owned(head);
    if conds.len() > 0 {
        sql.append(" AND ");
        append_joined_strings(&mut sql, conds, " AND ");
    }
    proof {
        reveal_strlit(" AND ");
        assert(sql@ =~= head@ + conditions_text(strings_view(conds@), " AND "@));
    }
    sql
}

/// The rows head of a book.
pub open spec fn book_rows(b: Book) -> Seq<char> {
    match b {
        Book::Sales => SALES_BOOK_ROWS@,
        Book::Purchase => PURCHASE_BOOK_ROWS@,
    }
}

/// The count head of a book.
pub open spec fn book_count(b: Book) -> Seq<char> {
    match b {
        Book::Sales => SALES_BOOK_COUNT@,
        Book::Purchase => PURCHASE_BOOK_COUNT@,
    }
}

/// The page of a book.
pub open spec fn book_page(b: Book) -> Seq<char> {
    match b {
        Book::Sales => SALES_BOOK_PAGE@,
        Book::Purchase => PURCHASE_BOOK_PAGE@,
    }
}

/// One page of a book: orders with their party's and operator's names, each given
/// filter written in as a quoted literal, newest first; the page size and the
/// offset `(page - 1) * page_size` are bound.
pub fn book_list_query(
    b: Book,
    status: Option<&str>,
    party: Option<&str>,
    page: i64,
    page_size: i64,
) -> (r: SqlQuery)
    requires
        page > i64::MIN,
        i64::MIN <= store_offset(page, page_size) <= i64::MAX,
    ensures
        r@.sql == book_rows(b) + conditions_text(book_clauses(b, status, party), " AND "@) + book_page(b),
        r@.params == seq![
            SqlValue::Int(page_size),
            SqlValue::Int(store_offset(page, page_size) as i64),
        ],
{
    let (rows, tail) = match b {
        Book::Sales => (SALES_BOOK_ROWS, SALES_BOOK_PAGE),
        Book::Purchase => (PURCHASE_BOOK_ROWS, PURCHASE_BOOK_PAGE),
    };
    let conds = book_conditions(b, status, party);
    let mut sql = with_conditions(rows, &conds);
    sql.append(tail);
    let offset = (page - 1) * page_size;
    let mut params: Vec<SqlParam> = Vec::new();
    params.push(SqlParam::Int(page_size));
    params.push(SqlParam::Int(offset));
    proof {
        assert(params_view(params@) =~= seq![
            SqlValue::Int(page_size),
            SqlValue::Int(store_offset(page, page_size) as i64),
        ]);
    }
    SqlQuery { sql, params }
}

/// The count of a book under the same filters; it binds nothing.
pub fn book_count_query(b: Book, status: Option<&str>, party: Option<&str>) -> (r: SqlQuery)
    ensures
        r@.sql == book_count(b) + conditions_text(book_clauses(b, status, party), " AND "@),
        r@.params.len() == 0,
{
    let head = match b {
        Book::Sales => SALES_BOOK_COUNT,
        Book::Purchase => PURCHASE_BOOK_COUNT,
    };
    let conds = book_conditions(b, status, party);
    SqlQuery { sql: with_conditions(head, &conds), params: Vec::new() }
}

impl SalesOrderRepo {
    /// One page of the sales order book; see `book_list_query`.
    pub fn list_query(status: Option<&str>, customer_id: Option<&str>, page: i64, page_size: i64) -> (r:
        SqlQuery)
        requires
            page > i64::MIN,
            i64::MIN <= store_offset(page, page_size) <= i64::MAX,
        ensures
            r@.sql == SALES_BOOK_ROWS@ + conditions_text(
                book_clauses(Book::Sales, status, customer_id),
                " AND "@,
            ) + SALES_BOOK_PAGE@,
            r@.params == seq![
                SqlValue::Int(page_size),
                SqlValue::Int(store_offset(page, page_size) as i64),
            ],
    {
        book_list_query(Book::Sales, status, customer_id, page, page_size)
    }

    /// The count of the sales order book; see `book_count_query`.
    pub fn count_query(status: Option<&str>, customer_id: Option<&str>) -> (r: SqlQuery)
        ensures
            r@.sql == SALES_BOOK_COUNT@ + conditions_text(
                book_clauses(Book::Sales, status, customer_id),
                " AND "@,
            ),
            r@.params.len() == 0,
    {
        book_count_query(Book::Sales, status, customer_id)
    }
}



// ---------------------------------------------------------------------------
// The supplier and customer directories of the order books
// ---------------------------------------------------------------------------

/// Suppliers whose name, contact or phone matches, newest first, one page.
pub const SUPPLIER_DIRECTORY_SEARCH: &'static str = "SELECT id, name, contact_person, phone, email, address, cert_info, is_active, created_at, updated_at\n                 FROM suppliers\n                 WHERE name LIKE ? OR contact_person LIKE ? OR phone LIKE ?\n                 ORDER BY created_at DESC LIMIT ? OFFSET ?";

/// All suppliers, newest first, one page.
pub const SUPPLIER_DIRECTORY_ALL: &'static str = "SELECT id, name, contact_person, phone, email, address, cert_info, is_active, created_at, updated_at\n                 FROM suppliers ORDER BY created_at DESC LIMIT ? OFFSET ?";

/// The count of suppliers whose name, contact or phone matches.
pub const SUPPLIER_DIRECTORY_SEARCH_COUNT: &'static str = "SELECT COUNT(*) FROM suppliers WHERE name LIKE ? OR contact_person LIKE ? OR phone LIKE ?";

/// The count of all suppliers.
pub const SUPPLIER_DIRECTORY_COUNT: &'static str = "SELECT COUNT(*) FROM suppliers";

/// Customers whose name, contact or phone matches, newest first, one page.
pub const CUSTOMER_DIRECTORY_SEARCH: &'static str = "SELECT id, name, contact_person, phone, email, address, is_active, created_at, updated_at\n                 FROM customers\n                 WHERE name LIKE ? OR contact_person LIKE ? OR phone LIKE ?\n                 ORDER BY created_at DESC LIMIT ? OFFSET ?";

/// All customers, newest first, one page.
pub const CUSTOMER_DIRECTORY_ALL: &'static str = "SELECT id, name, contact_person, phone, email, address, is_active, created_at, updated_at\n                 FROM customers ORDER BY created_at DESC LIMIT ? OFFSET ?";

/// The count of customers whose name, contact or phone matches.
pub const CUSTOMER_DIRECTORY_SEARCH_COUNT: &'static str = "SELECT COUNT(*) FROM customers WHERE name LIKE ? OR contact_person LIKE ? OR phone LIKE ?";

/// The count of all customers.
pub const CUSTOMER_DIRECTORY_COUNT: &'static str = "SELECT COUNT(*) FROM customers";

/// A party directory of the order books.
#[derive(Clone, Copy, PartialEq, Eq, Structural)]
pub enum Directory {
    Suppliers,
    Customers,
}

/// A search is applied when a non-empty keyword is given.
pub open spec fn searching(search: Option<&str>) -> bool {
    search matches Some(k) && k@.len() > 0
}

/// The keyword's LIKE pattern, bound once for each searched column.
pub open spec fn search_params(search: Option<&str>) -> Seq<SqlValue> {
    if searching(search) {
        let pattern = SqlValue::Text(seq!['%'] + search.unwrap()@ + seq!['%']);
        seq![pattern, pattern, pattern]
    } else {
        Seq::empty()
    }
}

/// The page statement of a directory.
pub open spec fn directory_page_sql(d: Directory, search: Option<&str>) -> Seq<char> {
    match (d, searching(search)) {
        (Directory::Suppliers, true) => SUPPLIER_DIRECTORY_SEARCH@,
        (Directory::Suppliers, false) => SUPPLIER_DIRECTORY_ALL@,
        (Directory::Customers, true) => CUSTOMER_DIRECTORY_SEARCH@,
        (Directory::Customers, false) => CUSTOMER_DIRECTORY_ALL@,
    }
}

/// The count statement of a directory.
pub open spec fn directory_count_sql(d: Directory, search: Option<&str>) -> Seq<char> {
    match (d, searching(search)) {
        (Directory::Suppliers, true) => SUPPLIER_DIRECTORY_SEARCH_COUNT@,
        (Directory::Suppliers, false) => SUPPLIER_DIRECTORY_COUNT@,
        (Directory::Customers, true) => CUSTOMER_DIRECTORY_SEARCH_COUNT@,
        (Directory::Customers, false) => CUSTOMER_DIRECTORY_COUNT@,
    }
}

fn keyword_params(search: Option<&str>) -> (r: Vec<SqlParam>)
    ensures
        params_view(r@) == search_params(search),
{
    let mut params: Vec<SqlParam> = Vec::new();
    if let Some(k) = search {
        if k.unicode_len() > 0 {
            params.push(SqlParam::Text(like_contains(k)));
            params.push(SqlParam::Text(like_contains(k)));
            params.push(SqlParam::Text(like_contains(k)));
        }
    }
    proof {
        assert(params_view(params@) =~= search_params(search));
    }
    params
}

/// One page of a directory: with a non-empty keyword, the parties whose name, contact
/// or phone contains it; otherwise all parties; newest first, the page size and the
/// offset `(page - 1) * page_size` bound after the keyword's patterns.
pub fn directory_page_query(d: Directory, search: Option<&str>, page: i64, page_size: i64) -> (r:
    SqlQuery)
    requires
        page > i64::MIN,
        i64::MIN <= store_offset(page, page_size) <= i64::MAX,
    ensures
        r@.sql == directory_page_sql(d, search),
        r@.params == search_params(search) + seq![
            SqlValue::Int(page_size),
            SqlValue::Int(store_offset(page, page_size) as i64),
        ],
{
    let offset = (page - 1) * page_size;
    let mut params = keyword_params(search);
    let ghost before = params_view(params@);
    params.push(SqlParam::Int(page_size));
    params.push(SqlParam::Int(offset));
    proof {
        assert(params_view(params@) =~= before + seq![
            SqlValue::Int(page_size),
            SqlValue::Int(store_offset(page, page_size) as i64),
        ]);
    }
    let searched = match search {
        Some(k) => k.unicode_len() > 0,
        None => false,
    };
    let sql = match (d, searched) {
        (Directory::Suppliers, true) => SUPPLIER_DIRECTORY_SEARCH,
        (Directory::Suppliers, false) => SUPPLIER_DIRECTORY_ALL,
        (Directory::Customers, true) => CUSTOMER_DIRECTORY_SEARCH,
        (Directory::Customers, false) => CUSTOMER_DIRECTORY_ALL,
    };
    SqlQuery { sql: String::from_str(sql), params }
}

/// The count of a directory under the same keyword.
pub fn directory_count_query(d: Directory, search: Option<&str>) -> (r: SqlQuery)
    ensures
        r@.sql == directory_count_sql(d, search),
        r@.params == search_params(search),
{
    let params = keyword_params(search);
    let searched = match search {
        Some(k) => k.unicode_len() > 0,
        None => false,
    };
    let sql = match (d, searched) {
        (Directory::Suppliers, true) => SUPPLIER_DIRECTORY_SEARCH_COUNT,
        (Directory::Suppliers, false) => SUPPLIER_DIRECTORY_COUNT,
        (Directory::Customers, true) => CUSTOMER_DIRECTORY_SEARCH_COUNT,
        (Directory::Customers, false) => CUSTOMER_DIRECTORY_COUNT,
    };
    SqlQuery { sql: String::from_str(sql), params }
}

} // verus!
