use erp_v2::catalog;
use erp_v2::check_sessions;
use erp_v2::contracts::ContractRepo;
use erp_v2::data_io::DataIORepo;
use erp_v2::finance;
use erp_v2::ledger;
use erp_v2::pipes::PipeType;
use erp_v2::query::SqlParam;
use erp_v2::stock::StockRepo;
use erp_v2::users::UserRepo;

fn shown(ps: &[SqlParam]) -> Vec<String> {
    ps.iter()
        .map(|p| match p {
            SqlParam::Int(n) => format!("int:{}", n),
            SqlParam::Text(t) => format!("text:{}", t),
            SqlParam::Null => "null".to_string(),
        })
        .collect()
}

#[test]
fn user_statements() {
    let f = UserRepo::find_by_username_query("ann");
    assert!(f.sql.ends_with("FROM users WHERE username = ? AND deleted_at IS NULL"));
    assert_eq!(shown(&f.params), vec!["text:ann"]);
    let c = UserRepo::create_query("ann", "h", Some("Ann"), "admin", None, Some("555"));
    assert!(c.sql.starts_with("INSERT INTO users (username, password_hash, display_name, role, email, phone)"));
    assert_eq!(shown(&c.params), vec!["text:ann", "text:h", "text:Ann", "text:admin", "null", "text:555"]);
    let p = UserRepo::update_password_query("h2", 4);
    assert_eq!(shown(&p.params), vec!["text:h2", "int:4"]);
    let r = UserRepo::update_role_query("viewer", 4);
    assert!(r.sql.starts_with("UPDATE users SET role = ?1, updated_at = datetime('now')"));
    assert_eq!(shown(&r.params), vec!["text:viewer", "int:4"]);
    let d = UserRepo::delete_soft_query(4);
    assert!(d.sql.starts_with("UPDATE users SET deleted_at = datetime('now')"));
    assert_eq!(shown(&UserRepo::find_by_id_query(4).params), vec!["int:4"]);
    assert_eq!(shown(&UserRepo::update_last_login_query(4).params), vec!["int:4"]);
}

#[test]
fn item_statements() {
    let c = catalog::create_item_query("SKU-1", "Pipe", Some("casing"), None, None);
    assert!(c.sql.ends_with("VALUES (?, ?, ?, ?, ?, 'draft')"));
    assert_eq!(shown(&c.params), vec!["text:SKU-1", "text:Pipe", "text:casing", "null", "null"]);
    let u = catalog::update_item_query("S", "N", None, Some("m"), None, "active", 3);
    assert_eq!(shown(&u.params), vec!["text:S", "text:N", "null", "text:m", "null", "text:active", "int:3"]);
    assert!(catalog::item_by_sku_query("S").sql.ends_with("WHERE sku = ? AND deleted_at IS NULL"));
    assert!(catalog::item_by_id_query(3).sql.ends_with("WHERE id = ? AND deleted_at IS NULL"));
    assert!(catalog::soft_delete_item_query(3).sql.starts_with("UPDATE items SET deleted_at"));
    let cats = catalog::list_categories_query();
    assert!(cats.sql.starts_with("SELECT DISTINCT category FROM items"));
    assert!(cats.params.is_empty());
}

#[test]
fn count_session_statements() {
    let s = check_sessions::insert_session_query("CK-1", 2, 7);
    assert!(s.sql.ends_with("VALUES (?, ?, 'draft', ?)"));
    assert_eq!(shown(&s.params), vec!["text:CK-1", "int:2", "int:7"]);
    let d = check_sessions::list_details_for_session_query(5);
    assert!(d.sql.ends_with("WHERE ci.record_id = ?\n         ORDER BY ci.id"));
    let st = check_sessions::update_session_status_query("done", 5);
    assert_eq!(shown(&st.params), vec!["text:done", "int:5"]);
    assert!(check_sessions::system_snapshot_query(2).sql.ends_with("WHERE location_id = ? ORDER BY item_id"));
    assert!(check_sessions::find_session_by_id_query(5).sql.ends_with("FROM check_records WHERE id = ? AND deleted_at IS NULL"));
    assert!(check_sessions::find_detail_by_id_query(9).sql.ends_with("WHERE ci.id = ?"));
}

#[test]
fn ledger_statements() {
    let a = finance::insert_account_query("1001", "Cash", None, "asset");
    assert_eq!(shown(&a.params), vec!["text:1001", "text:Cash", "null", "text:asset"]);
    let u = finance::update_account_query("1001", "Cash", Some(1), "asset", 9);
    assert_eq!(shown(&u.params), vec!["text:1001", "text:Cash", "int:1", "text:asset", "int:9"]);
    assert!(finance::find_account_by_code_query("1001").sql.ends_with("WHERE a.code = ?"));
    assert!(finance::find_account_by_id_query(9).sql.ends_with("WHERE a.id = ?"));
    assert_eq!(finance::deactivate_account_query(9).sql, "UPDATE accounts SET is_active = 0 WHERE id = ?");
    let j = finance::insert_journal_entry_query("JE-1", "2024-01-01", None, Some("invoice"), Some(4), 2);
    assert_eq!(shown(&j.params), vec!["text:JE-1", "text:2024-01-01", "null", "text:invoice", "int:4", "int:2"]);
    let l = finance::insert_journal_entry_line_query(1, 9, "10.00", "0", None);
    assert_eq!(shown(&l.params), vec!["int:1", "int:9", "text:10.00", "text:0", "null"]);
    assert!(finance::update_journal_entry_status_query("posted", 1).sql.ends_with("WHERE id = ? AND status = 'draft'"));
    assert!(finance::posted_lines_query().sql.ends_with("WHERE j.status = 'posted'"));
    assert!(finance::find_journal_entry_by_id_query(1).sql.ends_with("FROM journal_entries WHERE id = ?"));
    assert!(finance::find_lines_for_entry_query(1).sql.ends_with("WHERE entry_id = ? ORDER BY id"));
    let i = finance::insert_invoice_query("INV-1", "2024-01-02", "customer", 3, "99.50", None, None);
    assert_eq!(shown(&i.params), vec!["text:INV-1", "text:2024-01-02", "text:customer", "int:3", "text:99.50", "null", "null"]);
    assert_eq!(shown(&finance::update_invoice_status_query("paid", 8).params), vec!["text:paid", "int:8"]);
    assert!(finance::find_invoice_by_id_query(8).sql.ends_with("FROM invoices WHERE id = ?"));
    let p = finance::insert_payment_query("PAY-1", "2024-01-03", Some(5), "40", Some(8), None, Some("x"), 2);
    assert_eq!(shown(&p.params), vec!["text:PAY-1", "text:2024-01-03", "int:5", "text:40", "int:8", "null", "text:x", "int:2"]);
    assert!(finance::find_payment_by_id_query(1).sql.ends_with("FROM payments WHERE id = ?"));
    assert_eq!(finance::paid_amounts_for_invoice_query(8).sql, "SELECT amount FROM payments WHERE invoice_id = ?");
    assert_eq!(ledger::summary_accounts_query().sql, "SELECT id, code, name, account_type FROM accounts ORDER BY code");
    assert!(ledger::summary_lines_query().sql.ends_with("WHERE je.status = 'posted'"));
}

#[test]
fn pipe_table_statements() {
    assert!(DataIORepo::import_insert_statement(PipeType::Seamless).starts_with("INSERT INTO seamless_pipes (pipe_number, batch_number, pipe_type"));
    assert_eq!(DataIORepo::import_insert_statement(PipeType::Screen).matches('?').count(), 18);
    assert_eq!(DataIORepo::import_insert_statement(PipeType::Seamless).matches('?').count(), 19);
    assert!(DataIORepo::export_inventory_statement(PipeType::Screen).ends_with("WHERE sp.deleted_at IS NULL AND sp.status != 'outbound'"));
    let t = StockRepo::in_stock_total_query(PipeType::Seamless);
    assert_eq!(t.sql, "SELECT COUNT(*) FROM seamless_pipes WHERE status = 'in_stock' AND deleted_at IS NULL");
    assert!(t.params.is_empty());
    assert!(StockRepo::in_stock_total_query(PipeType::Screen).sql.contains("FROM screen_pipes"));
}

#[test]
fn contract_numbers_parse_their_last_segment() {
    assert_eq!(ContractRepo::next_contract_no("sales", Some("CT-SAL-99999999999999999999")), "CT-SAL-000001");
    assert_eq!(ContractRepo::next_contract_no("sales", Some("CT-SAL-9223372036854775806")), "CT-SAL-9223372036854775807");
    assert_eq!(ContractRepo::next_contract_no("sales", Some("CT-SAL-+")), "CT-SAL-000001");
    assert_eq!(ContractRepo::next_contract_no("sales", Some("CT-SAL-0x10")), "CT-SAL-000001");
    assert_eq!(ContractRepo::next_contract_no("sales", Some("CT-SAL-0007")), "CT-SAL-000008");
}
