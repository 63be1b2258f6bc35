use erp_v2::error::AppError;
use erp_v2::quality::QualityCertRepo;
use erp_v2::query::{SqlParam, SqlQuery};
use erp_v2::stock::{StockRepo, SCREEN_EXISTS, SCREEN_PRESENT, SEAMLESS_IN_STOCK};

fn counts(rows: &[(&str, i64)]) -> Vec<(String, i64)> {
    rows.iter().map(|(k, c)| (k.to_string(), *c)).collect()
}

fn merged(rows: &[(&str, i64, i64)]) -> Vec<(String, i64, i64)> {
    rows.iter().map(|(k, a, b)| (k.to_string(), *a, *b)).collect()
}

fn text_params(q: &SqlQuery) -> Vec<String> {
    q.params
        .iter()
        .map(|p| match p {
            SqlParam::Text(t) => t.clone(),
            _ => panic!("not a text parameter"),
        })
        .collect()
}

#[test]
fn grade_counts_merge_by_grade() {
    let seamless = counts(&[("J55", 3), ("N80", 2)]);
    let screen = counts(&[("K55", 1), ("N80", 4)]);
    assert_eq!(
        StockRepo::merge_counts(&seamless, &screen),
        merged(&[("J55", 3, 0), ("K55", 0, 1), ("N80", 2, 4)])
    );
}

#[test]
fn merged_keys_come_out_ascending() {
    let seamless = counts(&[("P110", 1), ("J55", 2)]);
    let screen = counts(&[("N80", 7), ("H40", 5)]);
    assert_eq!(
        StockRepo::merge_counts(&seamless, &screen),
        merged(&[("H40", 0, 5), ("J55", 2, 0), ("N80", 0, 7), ("P110", 1, 0)])
    );
}

#[test]
fn a_repeated_key_keeps_its_last_count() {
    let seamless = counts(&[("J55", 3), ("J55", 9)]);
    let screen = counts(&[("J55", 1), ("J55", 0)]);
    assert_eq!(StockRepo::merge_counts(&seamless, &screen), merged(&[("J55", 9, 0)]));
}

#[test]
fn empty_tables_merge_to_nothing() {
    assert_eq!(StockRepo::merge_counts(&Vec::new(), &Vec::new()), Vec::new());
}

#[test]
fn pipes_without_location_count_as_unknown() {
    let seamless = vec![(Some("A-1".to_string()), 2), (None, 1)];
    let screen = vec![(None, 5), (Some("B-2".to_string()), 3)];
    assert_eq!(
        StockRepo::merge_location_counts(&seamless, &screen),
        merged(&[("A-1", 2, 0), ("B-2", 0, 3), ("unknown", 1, 5)])
    );
}

#[test]
fn total_in_stock_adds_both_tables() {
    assert_eq!(StockRepo::total_in_stock(3, 4), 7);
    assert_eq!(StockRepo::total_in_stock(0, 0), 0);
}

#[test]
fn presence_checks_pick_the_table_by_kind() {
    let q = StockRepo::in_stock_query("seamless", "sp-1").ok().unwrap();
    assert_eq!(q.sql, SEAMLESS_IN_STOCK);
    assert_eq!(text_params(&q), vec!["sp-1"]);
    let q = StockRepo::exists_query("screen", "sc-2").ok().unwrap();
    assert_eq!(q.sql, SCREEN_EXISTS);
    assert_eq!(text_params(&q), vec!["sc-2"]);
    let q = QualityCertRepo::pipe_exists_query("screen", "sc-3").ok().unwrap();
    assert_eq!(q.sql, SCREEN_PRESENT);
    assert_eq!(q.sql, "SELECT COUNT(*) FROM screen_pipes WHERE id = ? AND deleted_at IS NULL");
}

#[test]
fn unknown_pipe_kinds_are_bad_requests() {
    match StockRepo::in_stock_query("steel", "x") {
        Err(AppError::BadRequest(m)) => assert_eq!(m, "Invalid pipe_type: steel"),
        _ => panic!("expected a bad request"),
    }
    match QualityCertRepo::pipe_exists_query("", "x") {
        Err(AppError::BadRequest(m)) => assert_eq!(m, "Invalid pipe_type: "),
        _ => panic!("expected a bad request"),
    }
}

#[test]
fn a_pipe_is_present_when_counted() {
    assert!(StockRepo::counted(1));
    assert!(!StockRepo::counted(0));
}

#[test]
fn a_pipe_number_prefers_the_seamless_table() {
    let row = |id: &str, no: &str, g: &str| Some((id.to_string(), no.to_string(), g.to_string()));
    assert_eq!(
        QualityCertRepo::pipe_number_hit(row("s1", "P-1", "J55"), row("c1", "P-1", "N80")),
        row("seamless", "s1", "J55")
    );
    assert_eq!(QualityCertRepo::pipe_number_hit(None, row("c1", "P-1", "N80")), row("screen", "c1", "N80"));
    assert_eq!(QualityCertRepo::pipe_number_hit(None, None), None);
}
