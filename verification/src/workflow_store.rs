//! Approval workflows: definitions, states, transitions, running instances and their tasks.
use vstd::prelude::*;
use crate::query::{SqlParam, SqlQuery, SqlValue, nullable_param, nullable_text, optional_int, optional_int_param, params_view};
use crate::text::owned;

verus! {

/// All workflow definitions, by id.
pub const LIST_WORKFLOWS: &'static str = "SELECT id, name, applies_to, is_active, created_at\n         FROM workflows ORDER BY id";

/// Finds workflow `id`.
pub const FIND_WORKFLOW_BY_ID: &'static str = "SELECT id, name, applies_to, is_active, created_at\n         FROM workflows WHERE id = ?";

/// The active workflow for documents of type `applies_to`: the earliest one when several are active.
pub const FIND_ACTIVE_WORKFLOW_BY_TYPE: &'static str = "SELECT id, name, applies_to, is_active, created_at\n         FROM workflows WHERE applies_to = ? AND is_active = 1\n         ORDER BY id ASC LIMIT 1";

/// Creates a workflow definition.
pub const INSERT_WORKFLOW: &'static str = "INSERT INTO workflows (name, applies_to, is_active) VALUES (?, ?, ?)";

/// Sets name, document type and active flag of workflow `id`.
pub const UPDATE_WORKFLOW: &'static str = "UPDATE workflows SET name = ?, applies_to = ?, is_active = ? WHERE id = ?";

/// Deletes workflow `id`.
pub const DELETE_WORKFLOW: &'static str = "DELETE FROM workflows WHERE id = ?";

/// Counts the running instances of workflow `workflow_id` (which keep it from being changed or deleted).
pub const COUNT_ACTIVE_INSTANCES_FOR_WORKFLOW: &'static str = "SELECT COUNT(*) FROM workflow_instances\n         WHERE workflow_id = ? AND status = 'active'";

/// The states of workflow `workflow_id`, by id.
pub const LIST_STATES_FOR_WORKFLOW: &'static str = "SELECT id, workflow_id, state_key, doc_status, is_initial, is_final\n         FROM workflow_states WHERE workflow_id = ? ORDER BY id";

/// The initial state of workflow `workflow_id` (the earliest, when several are marked).
pub const FIND_INITIAL_STATE: &'static str = "SELECT id, workflow_id, state_key, doc_status, is_initial, is_final\n         FROM workflow_states WHERE workflow_id = ? AND is_initial = 1\n         ORDER BY id ASC LIMIT 1";

/// The state with key `state_key` of workflow `workflow_id`.
pub const FIND_STATE_BY_KEY: &'static str = "SELECT id, workflow_id, state_key, doc_status, is_initial, is_final\n         FROM workflow_states WHERE workflow_id = ? AND state_key = ?";

/// Finds workflow state `state_id`.
pub const FIND_STATE_BY_ID: &'static str = "SELECT id, workflow_id, state_key, doc_status, is_initial, is_final\n         FROM workflow_states WHERE id = ?";

/// Adds a state to workflow `workflow_id`.
pub const INSERT_STATE: &'static str = "INSERT INTO workflow_states\n            (workflow_id, state_key, doc_status, is_initial, is_final)\n         VALUES (?, ?, ?, ?, ?)";

/// The transitions of workflow `workflow_id` out of state `from_state_id`, by id.
pub const LIST_OUTGOING_TRANSITIONS: &'static str = "SELECT id, workflow_id, from_state_id, to_state_id, action, required_role, is_auto, amount_threshold\n         FROM workflow_transitions\n         WHERE workflow_id = ? AND from_state_id = ? ORDER BY id";

/// The first transition of workflow `workflow_id` out of state `from_state_id` by action `action`.
pub const FIND_TRANSITION: &'static str = "SELECT id, workflow_id, from_state_id, to_state_id, action, required_role, is_auto, amount_threshold\n         FROM workflow_transitions\n         WHERE workflow_id = ? AND from_state_id = ? AND action = ?\n         ORDER BY id ASC LIMIT 1";

/// Every transition of workflow `workflow_id` out of state `from_state_id` by action `action`, by id.
pub const LIST_TRANSITIONS_BY_ACTION: &'static str = "SELECT id, workflow_id, from_state_id, to_state_id, action, required_role, is_auto, amount_threshold\n         FROM workflow_transitions\n         WHERE workflow_id = ? AND from_state_id = ? AND action = ?\n         ORDER BY id ASC";

/// Adds a transition to workflow `workflow_id`.
pub const INSERT_TRANSITION: &'static str = "INSERT INTO workflow_transitions\n            (workflow_id, from_state_id, to_state_id, action, required_role, is_auto)\n         VALUES (?, ?, ?, ?, ?, ?)";

/// The newest running workflow instance of document `business_id` of type `business_type`.
pub const FIND_ACTIVE_INSTANCE_FOR: &'static str = "SELECT id, workflow_id, business_type, business_id, current_state, status,\n                created_at, updated_at\n         FROM workflow_instances\n         WHERE business_type = ? AND business_id = ? AND status = 'active'\n         ORDER BY id DESC LIMIT 1";

/// Finds workflow instance `instance_id`.
pub const FIND_INSTANCE_BY_ID: &'static str = "SELECT id, workflow_id, business_type, business_id, current_state, status,\n                created_at, updated_at\n         FROM workflow_instances WHERE id = ?";

/// Starts a workflow instance for a document, in its initial state.
pub const INSERT_INSTANCE: &'static str = "INSERT INTO workflow_instances\n            (workflow_id, business_type, business_id, current_state, status)\n         VALUES (?, ?, ?, ?, 'active')";

/// Marks workflow instance `instance_id` completed.
pub const COMPLETE_INSTANCE: &'static str = "UPDATE workflow_instances\n         SET status = 'completed', updated_at = datetime('now')\n         WHERE id = ?";

/// Marks workflow instance `instance_id` cancelled.
pub const CANCEL_INSTANCE: &'static str = "UPDATE workflow_instances\n         SET status = 'cancelled', updated_at = datetime('now')\n         WHERE id = ?";

/// Opens a pending task of instance `instance_id` in state `state_key`, for one user or for anyone.
pub const INSERT_TASK: &'static str = "INSERT INTO workflow_tasks (instance_id, state_key, assignee_id, status)\n         VALUES (?, ?, ?, 'pending')";

/// The tasks of instance `instance_id`, by id.
pub const LIST_TASKS_FOR_INSTANCE: &'static str = "SELECT id, instance_id, state_key, assignee_id, status, action, comment,\n                created_at, completed_at\n         FROM workflow_tasks WHERE instance_id = ? ORDER BY id";

/// The pending tasks of user `user_id`: those assigned to them and those assigned to nobody, newest first.
pub const LIST_PENDING_TASKS_FOR_USER: &'static str = "SELECT id, instance_id, state_key, assignee_id, status, action, comment,\n                created_at, completed_at\n         FROM workflow_tasks\n         WHERE status = 'pending'\n           AND (assignee_id = ? OR assignee_id IS NULL)\n         ORDER BY id DESC";

/// The current task of instance `instance_id`: its earliest pending one.
pub const FIND_PENDING_TASK_FOR_INSTANCE: &'static str = "SELECT id, instance_id, state_key, assignee_id, status, action, comment,\n                created_at, completed_at\n         FROM workflow_tasks\n         WHERE instance_id = ? AND status = 'pending'\n         ORDER BY id ASC LIMIT 1";

/// Finds workflow task `task_id`.
pub const FIND_TASK_BY_ID: &'static str = "SELECT id, instance_id, state_key, assignee_id, status, action, comment,\n                created_at, completed_at\n         FROM workflow_tasks WHERE id = ?";

/// Completes task `task_id` with an action and a comment, while it is pending.
pub const COMPLETE_TASK: &'static str = "UPDATE workflow_tasks\n         SET status = 'completed', action = ?, comment = ?, completed_at = datetime('now')\n         WHERE id = ? AND status = 'pending'";

/// All workflow definitions, by id.
pub fn list_workflows_query() -> (r: SqlQuery)
    ensures
        r@.sql == LIST_WORKFLOWS@,
        r@.params.len() == 0,
{
    let mut params: Vec<SqlParam> = Vec::new();
    SqlQuery { sql: owned(LIST_WORKFLOWS), params }
}

/// Finds workflow `id`.
pub fn find_workflow_by_id_query(id: i64) -> (r: SqlQuery)
    ensures
        r@.sql == FIND_WORKFLOW_BY_ID@,
        r@.params == seq![SqlValue::Int(id)],
{
    let mut params: Vec<SqlParam> = Vec::new();
    params.push(SqlParam::Int(id));
    proof {
        assert(params_view(params@) =~= seq![SqlValue::Int(id)]);
    }
    SqlQuery { sql: owned(FIND_WORKFLOW_BY_ID), params }
}

/// The active workflow for documents of type `applies_to`: the earliest one when several are active.
pub fn find_active_workflow_by_type_query(applies_to: &str) -> (r: SqlQuery)
    ensures
        r@.sql == FIND_ACTIVE_WORKFLOW_BY_TYPE@,
        r@.params == seq![SqlValue::Text(applies_to@)],
{
    let mut params: Vec<SqlParam> = Vec::new();
    params.push(SqlParam::Text(owned(applies_to)));
    proof {
        assert(params_view(params@) =~= seq![SqlValue::Text(applies_to@)]);
    }
    SqlQuery { sql: owned(FIND_ACTIVE_WORKFLOW_BY_TYPE), params }
}

/// Creates a workflow definition.
pub fn insert_workflow_query(name: &str, applies_to: &str, is_active: i64) -> (r: SqlQuery)
    ensures
        r@.sql == INSERT_WORKFLOW@,
        r@.params == seq![SqlValue::Text(name@), SqlValue::Text(applies_to@), SqlValue::Int(is_active)],
{
    let mut params: Vec<SqlParam> = Vec::new();
    params.push(SqlParam::Text(owned(name)));
    params.push(SqlParam::Text(owned(applies_to)));
    params.push(SqlParam::Int(is_active));
    proof {
        assert(params_view(params@) =~= seq![SqlValue::Text(name@), SqlValue::Text(applies_to@), SqlValue::Int(is_active)]);
    }
    SqlQuery { sql: owned(INSERT_WORKFLOW), params }
}

/// Sets name, document type and active flag of workflow `id`.
pub fn update_workflow_query(id: i64, name: &str, applies_to: &str, is_active: i64) -> (r: SqlQuery)
    ensures
        r@.sql == UPDATE_WORKFLOW@,
        r@.params == seq![SqlValue::Text(name@), SqlValue::Text(applies_to@), SqlValue::Int(is_active), SqlValue::Int(id)],
{
    let mut params: Vec<SqlParam> = Vec::new();
    params.push(SqlParam::Text(owned(name)));
    params.push(SqlParam::Text(owned(applies_to)));
    params.push(SqlParam::Int(is_active));
    params.push(SqlParam::Int(id));
    proof {
        assert(params_view(params@) =~= seq![SqlValue::Text(name@), SqlValue::Text(applies_to@), SqlValue::Int(is_active), SqlValue::Int(id)]);
    }
    SqlQuery { sql: owned(UPDATE_WORKFLOW), params }
}

/// Deletes workflow `id`.
pub fn delete_workflow_query(id: i64) -> (r: SqlQuery)
    ensures
        r@.sql == DELETE_WORKFLOW@,
        r@.params == seq![SqlValue::Int(id)],
{
    let mut params: Vec<SqlParam> = Vec::new();
    params.push(SqlParam::Int(id));
    proof {
        assert(params_view(params@) =~= seq![SqlValue::Int(id)]);
    }
    SqlQuery { sql: owned(DELETE_WORKFLOW), params }
}

/// Counts the running instances of workflow `workflow_id` (which keep it from being changed or deleted).
pub fn count_active_instances_for_workflow_query(workflow_id: i64) -> (r: SqlQuery)
    ensures
        r@.sql == COUNT_ACTIVE_INSTANCES_FOR_WORKFLOW@,
        r@.params == seq![SqlValue::Int(workflow_id)],
{
    let mut params: Vec<SqlParam> = Vec::new();
    params.push(SqlParam::Int(workflow_id));
    proof {
        assert(params_view(params@) =~= seq![SqlValue::Int(workflow_id)]);
    }
    SqlQuery { sql: owned(COUNT_ACTIVE_INSTANCES_FOR_WORKFLOW), params }
}

/// The states of workflow `workflow_id`, by id.
pub fn list_states_for_workflow_query(workflow_id: i64) -> (r: SqlQuery)
    ensures
        r@.sql == LIST_STATES_FOR_WORKFLOW@,
        r@.params == seq![SqlValue::Int(workflow_id)],
{
    let mut params: Vec<SqlParam> = Vec::new();
    params.push(SqlParam::Int(workflow_id));
    proof {
        assert(params_view(params@) =~= seq![SqlValue::Int(workflow_id)]);
    }
    SqlQuery { sql: owned(LIST_STATES_FOR_WORKFLOW), params }
}

/// The initial state of workflow `workflow_id` (the earliest, when several are marked).
pub fn find_initial_state_query(workflow_id: i64) -> (r: SqlQuery)
    ensures
        r@.sql == FIND_INITIAL_STATE@,
        r@.params == seq![SqlValue::Int(workflow_id)],
{
    let mut params: Vec<SqlParam> = Vec::new();
    params.push(SqlParam::Int(workflow_id));
    proof {
        assert(params_view(params@) =~= seq![SqlValue::Int(workflow_id)]);
    }
    SqlQuery { sql: owned(FIND_INITIAL_STATE), params }
}

/// The state with key `state_key` of workflow `workflow_id`.
pub fn find_state_by_key_query(workflow_id: i64, state_key: &str) -> (r: SqlQuery)
    ensures
        r@.sql == FIND_STATE_BY_KEY@,
        r@.params == seq![SqlValue::Int(workflow_id), SqlValue::Text(state_key@)],
{
    let mut params: Vec<SqlParam> = Vec::new();
    params.push(SqlParam::Int(workflow_id));
    params.push(SqlParam::Text(owned(state_key)));
    proof {
        assert(params_view(params@) =~= seq![SqlValue::Int(workflow_id), SqlValue::Text(state_key@)]);
    }
    SqlQuery { sql: owned(FIND_STATE_BY_KEY), params }
}

/// Finds workflow state `state_id`.
pub fn find_state_by_id_query(state_id: i64) -> (r: SqlQuery)
    ensures
        r@.sql == FIND_STATE_BY_ID@,
        r@.params == seq![SqlValue::Int(state_id)],
{
    let mut params: Vec<SqlParam> = Vec::new();
    params.push(SqlParam::Int(state_id));
    proof {
        assert(params_view(params@) =~= seq![SqlValue::Int(state_id)]);
    }
    SqlQuery { sql: owned(FIND_STATE_BY_ID), params }
}

/// Adds a state to workflow `workflow_id`.
pub fn insert_state_query(workflow_id: i64, state_key: &str, doc_status: i64, is_initial: i64, is_final: i64) -> (r: SqlQuery)
    ensures
        r@.sql == INSERT_STATE@,
        r@.params == seq![SqlValue::Int(workflow_id), SqlValue::Text(state_key@), SqlValue::Int(doc_status), SqlValue::Int(is_initial), SqlValue::Int(is_final)],
{
    let mut params: Vec<SqlParam> = Vec::new();
    params.push(SqlParam::Int(workflow_id));
    params.push(SqlParam::Text(owned(state_key)));
    params.push(SqlParam::Int(doc_status));
    params.push(SqlParam::Int(is_initial));
    params.push(SqlParam::Int(is_final));
    proof {
        assert(params_view(params@) =~= seq![SqlValue::Int(workflow_id), SqlValue::Text(state_key@), SqlValue::Int(doc_status), SqlValue::Int(is_initial), SqlValue::Int(is_final)]);
    }
    SqlQuery { sql: owned(INSERT_STATE), params }
}

/// The transitions of workflow `workflow_id` out of state `from_state_id`, by id.
pub fn list_outgoing_transitions_query(workflow_id: i64, from_state_id: i64) -> (r: SqlQuery)
    ensures
        r@.sql == LIST_OUTGOING_TRANSITIONS@,
        r@.params == seq![SqlValue::Int(workflow_id), SqlValue::Int(from_state_id)],
{
    let mut params: Vec<SqlParam> = Vec::new();
    params.push(SqlParam::Int(workflow_id));
    params.push(SqlParam::Int(from_state_id));
    proof {
        assert(params_view(params@) =~= seq![SqlValue::Int(workflow_id), SqlValue::Int(from_state_id)]);
    }
    SqlQuery { sql: owned(LIST_OUTGOING_TRANSITIONS), params }
}

/// The first transition of workflow `workflow_id` out of state `from_state_id` by action `action`.
pub fn find_transition_query(workflow_id: i64, from_state_id: i64, action: &str) -> (r: SqlQuery)
    ensures
        r@.sql == FIND_TRANSITION@,
        r@.params == seq![SqlValue::Int(workflow_id), SqlValue::Int(from_state_id), SqlValue::Text(action@)],
{
    let mut params: Vec<SqlParam> = Vec::new();
    params.push(SqlParam::Int(workflow_id));
    params.push(SqlParam::Int(from_state_id));
    params.push(SqlParam::Text(owned(action)));
    proof {
        assert(params_view(params@) =~= seq![SqlValue::Int(workflow_id), SqlValue::Int(from_state_id), SqlValue::Text(action@)]);
    }
    SqlQuery { sql: owned(FIND_TRANSITION), params }
}

/// Every transition of workflow `workflow_id` out of state `from_state_id` by action `action`, by id.
pub fn list_transitions_by_action_query(workflow_id: i64, from_state_id: i64, action: &str) -> (r: SqlQuery)
    ensures
        r@.sql == LIST_TRANSITIONS_BY_ACTION@,
        r@.params == seq![SqlValue::Int(workflow_id), SqlValue::Int(from_state_id), SqlValue::Text(action@)],
{
    let mut params: Vec<SqlParam> = Vec::new();
    params.push(SqlParam::Int(workflow_id));
    params.push(SqlParam::Int(from_state_id));
    params.push(SqlParam::Text(owned(action)));
    proof {
        assert(params_view(params@) =~= seq![SqlValue::Int(workflow_id), SqlValue::Int(from_state_id), SqlValue::Text(action@)]);
    }
    SqlQuery { sql: owned(LIST_TRANSITIONS_BY_ACTION), params }
}

/// Adds a transition to workflow `workflow_id`.
pub fn insert_transition_query(workflow_id: i64, from_state_id: i64, to_state_id: i64, action: &str, required_role: Option<&str>, is_auto: i64) -> (r: SqlQuery)
    ensures
        r@.sql == INSERT_TRANSITION@,
        r@.params == seq![SqlValue::Int(workflow_id), SqlValue::Int(from_state_id), SqlValue::Int(to_state_id), SqlValue::Text(action@), nullable_text(required_role), SqlValue::Int(is_auto)],
{
    let mut params: Vec<SqlParam> = Vec::new();
    params.push(SqlParam::Int(workflow_id));
    params.push(SqlParam::Int(from_state_id));
    params.push(SqlParam::Int(to_state_id));
    params.push(SqlParam::Text(owned(action)));
    params.push(nullable_param(required_role));
    params.push(SqlParam::Int(is_auto));
    proof {
        assert(params_view(params@) =~= seq![SqlValue::Int(workflow_id), SqlValue::Int(from_state_id), SqlValue::Int(to_state_id), SqlValue::Text(action@), nullable_text(required_role), SqlValue::Int(is_auto)]);
    }
    SqlQuery { sql: owned(INSERT_TRANSITION), params }
}

/// The newest running workflow instance of document `business_id` of type `business_type`.
pub fn find_active_instance_for_query(business_type: &str, business_id: i64) -> (r: SqlQuery)
    ensures
        r@.sql == FIND_ACTIVE_INSTANCE_FOR@,
        r@.params == seq![SqlValue::Text(business_type@), SqlValue::Int(business_id)],
{
    let mut params: Vec<SqlParam> = Vec::new();
    params.push(SqlParam::Text(owned(business_type)));
    params.push(SqlParam::Int(business_id));
    proof {
        assert(params_view(params@) =~= seq![SqlValue::Text(business_type@), SqlValue::Int(business_id)]);
    }
    SqlQuery { sql: owned(FIND_ACTIVE_INSTANCE_FOR), params }
}

/// Finds workflow instance `instance_id`.
pub fn find_instance_by_id_query(instance_id: i64) -> (r: SqlQuery)
    ensures
        r@.sql == FIND_INSTANCE_BY_ID@,
        r@.params == seq![SqlValue::Int(instance_id)],
{
    let mut params: Vec<SqlParam> = Vec::new();
    params.push(SqlParam::Int(instance_id));
    proof {
        assert(params_view(params@) =~= seq![SqlValue::Int(instance_id)]);
    }
    SqlQuery { sql: owned(FIND_INSTANCE_BY_ID), params }
}

/// Starts a workflow instance for a document, in its initial state.
pub fn insert_instance_query(workflow_id: i64, business_type: &str, business_id: i64, initial_state_key: &str) -> (r: SqlQuery)
    ensures
        r@.sql == INSERT_INSTANCE@,
        r@.params == seq![SqlValue::Int(workflow_id), SqlValue::Text(business_type@), SqlValue::Int(business_id), SqlValue::Text(initial_state_key@)],
{
    let mut params: Vec<SqlParam> = Vec::new();
    params.push(SqlParam::Int(workflow_id));
    params.push(SqlParam::Text(owned(business_type)));
    params.push(SqlParam::Int(business_id));
    params.push(SqlParam::Text(owned(initial_state_key)));
    proof {
        assert(params_view(params@) =~= seq![SqlValue::Int(workflow_id), SqlValue::Text(business_type@), SqlValue::Int(business_id), SqlValue::Text(initial_state_key@)]);
    }
    SqlQuery { sql: owned(INSERT_INSTANCE), params }
}

/// Marks workflow instance `instance_id` completed.
pub fn complete_instance_query(instance_id: i64) -> (r: SqlQuery)
    ensures
        r@.sql == COMPLETE_INSTANCE@,
        r@.params == seq![SqlValue::Int(instance_id)],
{
    let mut params: Vec<SqlParam> = Vec::new();
    params.push(SqlParam::Int(instance_id));
    proof {
        assert(params_view(params@) =~= seq![SqlValue::Int(instance_id)]);
    }
    SqlQuery { sql: owned(COMPLETE_INSTANCE), params }
}

/// Marks workflow instance `instance_id` cancelled.
pub fn cancel_instance_query(instance_id: i64) -> (r: SqlQuery)
    ensures
        r@.sql == CANCEL_INSTANCE@,
        r@.params == seq![SqlValue::Int(instance_id)],
{
    let mut params: Vec<SqlParam> = Vec::new();
    params.push(SqlParam::Int(instance_id));
    proof {
        assert(params_view(params@) =~= seq![SqlValue::Int(instance_id)]);
    }
    SqlQuery { sql: owned(CANCEL_INSTANCE), params }
}

/// Opens a pending task of instance `instance_id` in state `state_key`, for one user or for anyone.
pub fn insert_task_query(instance_id: i64, state_key: &str, assignee_id: Option<i64>) -> (r: SqlQuery)
    ensures
        r@.sql == INSERT_TASK@,
        r@.params == seq![SqlValue::Int(instance_id), SqlValue::Text(state_key@), optional_int(assignee_id)],
{
    let mut params: Vec<SqlParam> = Vec::new();
    params.push(SqlParam::Int(instance_id));
    params.push(SqlParam::Text(owned(state_key)));
    params.push(optional_int_param(assignee_id));
    proof {
        assert(params_view(params@) =~= seq![SqlValue::Int(instance_id), SqlValue::Text(state_key@), optional_int(assignee_id)]);
    }
    SqlQuery { sql: owned(INSERT_TASK), params }
}

/// The tasks of instance `instance_id`, by id.
pub fn list_tasks_for_instance_query(instance_id: i64) -> (r: SqlQuery)
    ensures
        r@.sql == LIST_TASKS_FOR_INSTANCE@,
        r@.params == seq![SqlValue::Int(instance_id)],
{
    let mut params: Vec<SqlParam> = Vec::new();
    params.push(SqlParam::Int(instance_id));
    proof {
        assert(params_view(params@) =~= seq![SqlValue::Int(instance_id)]);
    }
    SqlQuery { sql: owned(LIST_TASKS_FOR_INSTANCE), params }
}

/// The pending tasks of user `user_id`: those assigned to them and those assigned to nobody, newest first.
pub fn list_pending_tasks_for_user_query(user_id: i64) -> (r: SqlQuery)
    ensures
        r@.sql == LIST_PENDING_TASKS_FOR_USER@,
        r@.params == seq![SqlValue::Int(user_id)],
{
    let mut params: Vec<SqlParam> = Vec::new();
    params.push(SqlParam::Int(user_id));
    proof {
        assert(params_view(params@) =~= seq![SqlValue::Int(user_id)]);
    }
    SqlQuery { sql: owned(LIST_PENDING_TASKS_FOR_USER), params }
}

/// The current task of instance `instance_id`: its earliest pending one.
pub fn find_pending_task_for_instance_query(instance_id: i64) -> (r: SqlQuery)
    ensures
        r@.sql == FIND_PENDING_TASK_FOR_INSTANCE@,
        r@.params == seq![SqlValue::Int(instance_id)],
{
    let mut params: Vec<SqlParam> = Vec::new();
    params.push(SqlParam::Int(instance_id));
    proof {
        assert(params_view(params@) =~= seq![SqlValue::Int(instance_id)]);
    }
    SqlQuery { sql: owned(FIND_PENDING_TASK_FOR_INSTANCE), params }
}

/// Finds workflow task `task_id`.
pub fn find_task_by_id_query(task_id: i64) -> (r: SqlQuery)
    ensures
        r@.sql == FIND_TASK_BY_ID@,
        r@.params == seq![SqlValue::Int(task_id)],
{
    let mut params: Vec<SqlParam> = Vec::new();
    params.push(SqlParam::Int(task_id));
    proof {
        assert(params_view(params@) =~= seq![SqlValue::Int(task_id)]);
    }
    SqlQuery { sql: owned(FIND_TASK_BY_ID), params }
}

/// Completes task `task_id` with an action and a comment, while it is pending.
pub fn complete_task_query(task_id: i64, action: &str, comment: Option<&str>) -> (r: SqlQuery)
    ensures
        r@.sql == COMPLETE_TASK@,
        r@.params == seq![SqlValue::Text(action@), nullable_text(comment), SqlValue::Int(task_id)],
{
    let mut params: Vec<SqlParam> = Vec::new();
    params.push(SqlParam::Text(owned(action)));
    params.push(nullable_param(comment));
    params.push(SqlParam::Int(task_id));
    proof {
        assert(params_view(params@) =~= seq![SqlValue::Text(action@), nullable_text(comment), SqlValue::Int(task_id)]);
    }
    SqlQuery { sql: owned(COMPLETE_TASK), params }
}

} // verus!
