use erp_v2::error::AppError;
use erp_v2::paging::SortOrder;
use erp_v2::pipes::{
    pipe_store_count_query, pipe_store_list_query, validate_sort_col, GenericPipeRepo, PipeFilter,
    PipeStatus, PipeType,
};
use erp_v2::pipe_repos::{SeamlessPipeChanges, SeamlessPipeRepo, ScreenPipeRepo};
use erp_v2::query::SqlParam;

fn shown(ps: &[SqlParam]) -> Vec<String> {
    ps.iter()
        .map(|p| match p {
            SqlParam::Int(n) => format!("int:{}", n),
            SqlParam::Text(t) => format!("text:{}", t),
            SqlParam::Null => "null".to_string(),
        })
        .collect()
}

fn empty_filter() -> PipeFilter {
    PipeFilter {
        q: None,
        grade: None,
        pipe_type: None,
        status: None,
        od_min: None,
        od_max: None,
        wt_min: None,
        wt_max: None,
        location_id: None,
        manufacturer: None,
        heat_number: None,
    }
}

#[test]
fn transition_between_the_two_statuses_is_allowed() {
    assert!(GenericPipeRepo::<()>::validate_status_transition("in_stock", "outbound").is_ok());
    assert!(GenericPipeRepo::<()>::validate_status_transition("outbound", "in_stock").is_ok());
}

#[test]
fn transition_to_the_same_status_is_refused() {
    match GenericPipeRepo::<()>::validate_status_transition("in_stock", "in_stock") {
        Err(AppError::Validation(m)) => {
            assert_eq!(m, "Invalid status transition from 'in_stock' to 'in_stock'")
        }
        _ => panic!("expected a validation error"),
    }
}

#[test]
fn unknown_current_status_is_refused_first() {
    match GenericPipeRepo::<()>::validate_status_transition("lost", "nowhere") {
        Err(AppError::Validation(m)) => assert_eq!(m, "Invalid current status: lost"),
        _ => panic!("expected a validation error"),
    }
}

#[test]
fn unknown_target_status_is_refused() {
    match GenericPipeRepo::<()>::validate_status_transition("outbound", "nowhere") {
        Err(AppError::Validation(m)) => assert_eq!(m, "Invalid target status: nowhere"),
        _ => panic!("expected a validation error"),
    }
}

#[test]
fn status_text_reads_back() {
    for s in [PipeStatus::InStock, PipeStatus::Outbound] {
        assert!(PipeStatus::from_str(s.as_str()) == Some(s));
    }
    assert!(PipeStatus::from_str("In_Stock").is_none());
}

#[test]
fn pipe_kinds_by_name() {
    assert!(PipeType::from_pipe_type_str("seamless") == Some(PipeType::Seamless));
    assert!(PipeType::from_pipe_type_str("screen") == Some(PipeType::Screen));
    assert!(PipeType::from_pipe_type_str("casing").is_none());
}

#[test]
fn generic_list_binds_every_filter_as_text() {
    let mut f = empty_filter();
    f.q = Some("A1".to_string());
    f.grade = Some("N80".to_string());
    f.pipe_type = Some("seamless".to_string());
    f.od_min = Some("73.5".to_string());
    f.location_id = Some(7);
    let q = GenericPipeRepo::<()>::list_query(PipeType::Seamless, &f, Some("od"), SortOrder::Asc, 20, 40);
    assert_eq!(
        q.count.sql,
        "SELECT COUNT(*) as cnt FROM seamless_pipes WHERE deleted_at IS NULL AND (pipe_number LIKE ? OR batch_number LIKE ?) AND grade = ? AND od >= ? AND location_id = ?"
    );
    assert_eq!(shown(&q.count.params), vec!["text:%A1%", "text:%A1%", "text:N80", "text:73.5", "text:7"]);
    assert_eq!(
        q.list.sql,
        "SELECT * FROM seamless_pipes WHERE deleted_at IS NULL AND (pipe_number LIKE ? OR batch_number LIKE ?) AND grade = ? AND od >= ? AND location_id = ? ORDER BY od ASC LIMIT ? OFFSET ?"
    );
    assert_eq!(
        shown(&q.list.params),
        vec!["text:%A1%", "text:%A1%", "text:N80", "text:73.5", "text:7", "int:20", "int:40"]
    );
}

#[test]
fn generic_list_of_screen_pipes_uses_base_columns() {
    let mut f = empty_filter();
    f.grade = Some("L80".to_string());
    f.pipe_type = Some("wire_wrapped".to_string());
    f.wt_max = Some("9".to_string());
    let q = GenericPipeRepo::<()>::list_query(PipeType::Screen, &f, Some("od"), SortOrder::Desc, 10, 0);
    assert_eq!(
        q.list.sql,
        "SELECT * FROM screen_pipes WHERE deleted_at IS NULL AND base_grade = ? AND screen_type = ? AND base_wt <= ? ORDER BY created_at DESC LIMIT ? OFFSET ?"
    );
    assert_eq!(shown(&q.count.params), vec!["text:L80", "text:wire_wrapped", "text:9"]);
}

#[test]
fn empty_search_text_filters_nothing() {
    let mut f = empty_filter();
    f.q = Some(String::new());
    let q = GenericPipeRepo::<()>::list_query(PipeType::Seamless, &f, None, SortOrder::Desc, 10, 0);
    assert_eq!(q.count.sql, "SELECT COUNT(*) as cnt FROM seamless_pipes WHERE deleted_at IS NULL");
    assert!(q.count.params.is_empty());
}

#[test]
fn lookup_by_ids() {
    assert!(GenericPipeRepo::<()>::find_by_ids_query(PipeType::Seamless, &vec![]).is_none());
    let q = GenericPipeRepo::<()>::find_by_ids_query(PipeType::Screen, &vec![4, 9, 2]).unwrap();
    assert_eq!(q.sql, "SELECT * FROM screen_pipes WHERE id IN (?,?,?) AND deleted_at IS NULL");
    assert_eq!(shown(&q.params), vec!["int:4", "int:9", "int:2"]);
}

#[test]
fn search_binds_the_pattern_twice() {
    let q = GenericPipeRepo::<()>::search_query(PipeType::Seamless, "P-7");
    assert_eq!(shown(&q.params), vec!["text:%P-7%", "text:%P-7%"]);
    assert!(q.sql.ends_with("ORDER BY created_at DESC LIMIT 50"));
}

#[test]
fn store_sort_columns() {
    assert_eq!(validate_sort_col("weight"), "weight");
    assert_eq!(validate_sort_col("od"), "od");
    assert_eq!(validate_sort_col("od; DROP TABLE x"), "created_at");
    assert_eq!(validate_sort_col(""), "created_at");
}

#[test]
fn store_list_computes_the_offset() {
    let q = pipe_store_list_query(PipeType::Seamless, Some("J55"), None, Some("77"), 3, 25, "grade", "ASC");
    assert_eq!(
        q.sql,
        "SELECT * FROM seamless_pipes WHERE deleted_at IS NULL AND (?1 IS NULL OR grade = ?1) AND (?2 IS NULL OR status = ?2) AND (?3 IS NULL OR pipe_number LIKE '%' || ?3 || '%') ORDER BY grade ASC LIMIT ?4 OFFSET ?5"
    );
    assert_eq!(shown(&q.params), vec!["text:J55", "null", "text:77", "int:25", "int:50"]);
    let c = pipe_store_count_query(PipeType::Screen, None, None, None);
    assert!(c.sql.starts_with("SELECT COUNT(*) FROM screen_pipes"));
    assert_eq!(shown(&c.params), vec!["null", "null", "null"]);
}

#[test]
fn sort_direction_ignores_letter_case() {
    assert!(SortOrder::from_request("aSc") == SortOrder::Asc);
    assert!(SortOrder::from_request("asc ") == SortOrder::Desc);
    assert!(SortOrder::from_request("") == SortOrder::Desc);
    assert_eq!(SortOrder::Asc.sql(), "ASC");
}

#[test]
fn inline_list_escapes_quotes() {
    let mut f = empty_filter();
    f.q = Some("O'Neil".to_string());
    f.status = Some("in_stock".to_string());
    f.od_min = Some("60.3".to_string());
    f.location_id = Some(-3);
    let q = SeamlessPipeRepo::list_query(&f, Some("grade"), SortOrder::Desc, 15, 30);
    assert_eq!(
        q.count.sql,
        "SELECT COUNT(*) as cnt FROM seamless_pipes WHERE deleted_at IS NULL AND (pipe_number LIKE '%O''Neil%' OR batch_number LIKE '%O''Neil%' OR grade LIKE '%O''Neil%') AND status = 'in_stock' AND od >= 60.3 AND location_id = -3"
    );
    assert!(q.list.sql.ends_with("ORDER BY grade DESC LIMIT 15 OFFSET 30"));
    assert!(q.list.params.is_empty());
    let s = ScreenPipeRepo::list_query(&f, Some("grade"), SortOrder::Asc, 5, 0);
    assert!(s.count.sql.contains("base_grade LIKE '%O''Neil%'"));
    assert!(s.list.sql.ends_with("ORDER BY created_at ASC LIMIT 5 OFFSET 0"));
}

#[test]
fn concrete_search_doubles_quotes_in_the_pattern() {
    let q = SeamlessPipeRepo::search_query("a'b");
    assert_eq!(shown(&q.params), vec!["text:%a''b%", "text:%a''b%"]);
}

#[test]
fn seamless_update_sets_only_supplied_fields() {
    let c = SeamlessPipeChanges {
        batch_number: false,
        pipe_type: false,
        grade: true,
        od: false,
        wt: true,
        length: false,
        weight_per_unit: false,
        end_type: false,
        coupling_type: false,
        coupling_od: false,
        coupling_length: false,
        heat_number: false,
        serial_number: false,
        manufacturer: false,
        production_date: false,
        cert_number: false,
        notes: true,
    };
    let p = SeamlessPipeRepo::update_plan(&c);
    assert_eq!(p.columns, vec!["grade", "wt", "notes"]);
    assert!(p.sql.starts_with(
        "UPDATE seamless_pipes SET updated_at = datetime('now'), grade = ?, wt = ?, notes = ? WHERE id = ? AND deleted_at IS NULL RETURNING id,"
    ));
}

#[test]
fn size_bounds_must_be_printed_numbers() {
    for ok in ["60.3", "0", "-0", "-12.5", "100000000000000000000", "NaN", "inf", "-inf"] {
        assert!(erp_v2::pipes::is_float_text(ok), "{}", ok);
    }
    for bad in ["", "-", ".5", "5.", "1.2.3", "1e5", "1 OR 1=1", "60.3; DROP TABLE x", "--1", "Inf"] {
        assert!(!erp_v2::pipes::is_float_text(bad), "{}", bad);
    }
    for v in [60.3f64, -0.0, 1e20, 0.1, f64::NAN, f64::INFINITY] {
        assert!(erp_v2::pipes::is_float_text(&v.to_string()));
    }
    let mut f = empty_filter();
    f.wt_max = Some("7 OR 1=1".to_string());
    assert!(!erp_v2::pipes::filter_bounds_ok(&f));
    f.wt_max = Some("7.72".to_string());
    f.od_min = Some("60".to_string());
    assert!(erp_v2::pipes::filter_bounds_ok(&f));
}
