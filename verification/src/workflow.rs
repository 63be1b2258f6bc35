//! Data-driven approval workflows: rows, the instance list query and the moves of
//! an instance between states.
use vstd::prelude::*;
use crate::query::{
    clause_if, clauses_view, conditions_text, filtered, params_view, text_param, well_bound,
    Conditions, SqlParam, SqlQuery, SqlValue,
};
use crate::error::{AppError, AppErrorView, ErrorCode};
use crate::outcomes::{require_changed, Missing};
use crate::sql_text::{
    lemma_business_type_eq, lemma_instances_list, lemma_order_by_id_desc, lemma_status_eq,
    BUSINESS_TYPE_EQ, INSTANCES_LIST, ORDER_BY_ID_DESC, STATUS_EQ,
};

verus! {

/// One row of `workflows`.
pub struct WorkflowRow {
    pub id: i64,
    pub name: String,
    pub applies_to: String,
    pub is_active: i64,
    pub created_at: String,
}

/// One row of `workflow_states`.
pub struct WorkflowStateRow {
    pub id: i64,
    pub workflow_id: i64,
    pub state_key: String,
    pub doc_status: i64,
    pub is_initial: i64,
    pub is_final: i64,
}

/// One row of `workflow_transitions`; the threshold is canonical `rust_decimal` text.
pub struct WorkflowTransitionRow {
    pub id: i64,
    pub workflow_id: i64,
    pub from_state_id: i64,
    pub to_state_id: i64,
    pub action: String,
    pub required_role: Option<String>,
    pub is_auto: i64,
    pub amount_threshold: Option<String>,
}

/// One row of `workflow_instances`.
pub struct WorkflowInstanceRow {
    pub id: i64,
    pub workflow_id: i64,
    pub business_type: String,
    pub business_id: i64,
    pub current_state: String,
    pub status: String,
    pub created_at: String,
    pub updated_at: String,
}

/// One row of `workflow_tasks`.
pub struct WorkflowTaskRow {
    pub id: i64,
    pub instance_id: i64,
    pub state_key: String,
    pub assignee_id: Option<i64>,
    pub status: String,
    pub action: Option<String>,
    pub comment: Option<String>,
    pub created_at: String,
    pub completed_at: Option<String>,
}

/// The conditions of the instance list: the business type, then the status.
pub open spec fn instance_clauses(business_type: Option<&str>, status: Option<&str>) -> Seq<
    Seq<char>,
> {
    clause_if(business_type is Some, BUSINESS_TYPE_EQ@) + clause_if(status is Some, STATUS_EQ@)
}

/// The query of `list_instances`: instances of the given business type and
/// status, newest first.
pub fn list_instances_query(business_type_filter: Option<&str>, status_filter: Option<&str>) -> (r:
    SqlQuery)
    ensures
        r@.sql == INSTANCES_LIST@ + conditions_text(
            instance_clauses(business_type_filter, status_filter),
            " AND "@,
        ) + ORDER_BY_ID_DESC@,
        r@.params == text_param(business_type_filter) + text_param(status_filter),
        well_bound(r@),
{
    proof {
        lemma_business_type_eq();
        lemma_status_eq();
        lemma_instances_list();
        lemma_order_by_id_desc();
        crate::query::lemma_and_sep();
    }
    let mut c = Conditions::new();
    proof {
        assert(clauses_view(c.clauses@) =~= Seq::<Seq<char>>::empty());
        assert(params_view(c.params@) =~= Seq::<SqlValue>::empty());
    }
    c.add_text(BUSINESS_TYPE_EQ, business_type_filter);
    c.add_text(STATUS_EQ, status_filter);
    proof {
        assert(clauses_view(c.clauses@) =~= instance_clauses(business_type_filter, status_filter));
        assert(params_view(c.params@) =~= text_param(business_type_filter) + text_param(
            status_filter,
        ));
    }
    filtered(INSTANCES_LIST, " AND ", c, ORDER_BY_ID_DESC)
}

/// Moves an instance to a new state and a new status.
pub const INSTANCE_STATE_AND_STATUS: &'static str = "UPDATE workflow_instances\n             SET current_state = ?, status = ?, updated_at = datetime('now')\n             WHERE id = ?";

/// Moves an instance to a new state, keeping its status.
pub const INSTANCE_STATE: &'static str = "UPDATE workflow_instances\n             SET current_state = ?, updated_at = datetime('now')\n             WHERE id = ?";

/// The message for an instance that does not exist.
pub open spec fn instance_missing_message() -> Seq<char> {
    "审批实例未找到"@
}

/// The statement that moves instance `instance_id` to `new_state`, and to `status`
/// when one is given.
pub fn instance_state_query(instance_id: i64, new_state: &str, status: Option<&str>) -> (r: SqlQuery)
    ensures
        status matches Some(st) ==> r@.sql == INSTANCE_STATE_AND_STATUS@ && r@.params == seq![
            SqlValue::Text(new_state@),
            SqlValue::Text(st@),
            SqlValue::Int(instance_id),
        ],
        status is None ==> r@.sql == INSTANCE_STATE@ && r@.params == seq![
            SqlValue::Text(new_state@),
            SqlValue::Int(instance_id),
        ],
{
    let mut params: Vec<SqlParam> = Vec::new();
    params.push(SqlParam::Text(String::from_str(new_state)));
    match status {
        Some(st) => {
            params.push(SqlParam::Text(String::from_str(st)));
            params.push(SqlParam::Int(instance_id));
            proof {
                assert(params_view(params@) =~= seq![
                    SqlValue::Text(new_state@),
                    SqlValue::Text(st@),
                    SqlValue::Int(instance_id),
                ]);
            }
            SqlQuery { sql: String::from_str(INSTANCE_STATE_AND_STATUS), params }
        },
        None => {
            params.push(SqlParam::Int(instance_id));
            proof {
                assert(params_view(params@) =~= seq![SqlValue::Text(new_state@), SqlValue::Int(instance_id)]);
            }
            SqlQuery { sql: String::from_str(INSTANCE_STATE), params }
        },
    }
}

/// The outcome of moving an instance: an error when no row was changed.
pub fn instance_state_outcome(rows_affected: u64) -> (r: Result<(), AppError>)
    ensures
        rows_affected == 0 <==> r is Err,
        r matches Err(e) ==> e@ == AppErrorView::Coded(ErrorCode::NotFound, instance_missing_message()),
{
    require_changed(rows_affected, Missing::ApprovalInstance)
}

} // verus!
