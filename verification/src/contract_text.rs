//! The fixed text of the contract repositories' statements.
use vstd::prelude::*;

verus! {

/// The greatest contract number with a given prefix.
pub const CONTRACT_MAX_NO: &'static str = "SELECT MAX(contract_no) FROM contracts WHERE contract_no LIKE $1";

/// Starts an update of a contract.
pub const CONTRACT_UPDATE_HEAD: &'static str = "UPDATE contracts SET updated_at = NOW()";

/// Ends an update of one contract by id and returns its columns.
pub const CONTRACT_UPDATE_TAIL: &'static str = " WHERE id = ? AND deleted_at IS NULL RETURNING id, contract_no, contract_type, title, party_a, party_b, sign_date, start_date, end_date, total_amount, status, notes, created_by, created_at, updated_at, deleted_at";

/// Starts an update of a contract item.
pub const ITEM_UPDATE_HEAD: &'static str = "UPDATE contract_items SET";

/// Ends an update of one contract item by id and returns its columns.
pub const ITEM_UPDATE_TAIL: &'static str = " WHERE id = ? RETURNING id, contract_id, pipe_type, grade, od, wt, quantity, unit_price, total_price, notes, created_at";

/// Selects one contract item by id.
pub const ITEM_BY_ID: &'static str = "SELECT id, contract_id, pipe_type, grade, od, wt, quantity, unit_price, total_price, notes, created_at FROM contract_items WHERE id = $1";

/// Stores the recomputed total of one contract item.
pub const ITEM_TOTAL_UPDATE: &'static str = "UPDATE contract_items SET total_price = $1 WHERE id = $2";

/// Starts an update of a contract payment.
pub const PAYMENT_UPDATE_HEAD: &'static str = "UPDATE contract_payments SET";

/// Ends an update of one contract payment by id and returns its columns.
pub const PAYMENT_UPDATE_TAIL: &'static str = " WHERE id = ? RETURNING id, contract_id, due_date, amount, payment_type, is_paid, paid_date, notes, created_at";

/// Selects one contract payment by id.
pub const PAYMENT_BY_ID: &'static str = "SELECT id, contract_id, due_date, amount, payment_type, is_paid, paid_date, notes, created_at FROM contract_payments WHERE id = $1";

/// Contract number, title or either party matches a pattern.
pub const CONTRACT_SEARCH: &'static str = "(c.contract_no LIKE ? OR c.title LIKE ? OR c.party_a LIKE ? OR c.party_b LIKE ?)";

/// Contracts not soft-deleted.
pub const CONTRACT_NOT_DELETED: &'static str = "c.deleted_at IS NULL";

/// Contract type condition up to its placeholder number.
pub const CONTRACT_TYPE_IS: &'static str = "c.contract_type = $";

/// Contract status condition up to its placeholder number.
pub const CONTRACT_STATUS_IS: &'static str = "c.status = $";

/// Earliest signing date condition up to its placeholder number.
pub const SIGNED_FROM: &'static str = "c.sign_date >= $";

/// Latest signing date condition up to its placeholder number.
pub const SIGNED_TO: &'static str = "c.sign_date <= $";

/// Counts contracts; the conditions follow.
pub const CONTRACT_COUNT_HEAD: &'static str = "SELECT COUNT(*) as cnt FROM contracts c WHERE ";

/// Selects contracts; the conditions follow.
pub const CONTRACT_ROWS_HEAD: &'static str = "SELECT c.id, c.contract_no, c.contract_type, c.title, c.party_a, c.party_b, c.sign_date, c.start_date, c.end_date, c.total_amount, c.status, c.notes, c.created_by, c.created_at, c.updated_at, c.deleted_at FROM contracts c WHERE ";

/// Contracts of the contract ledger by optional type, status, creation dates and party; the ordering follows.
pub const LEDGER_LIST_HEAD: &'static str = "SELECT id, contract_no, contract_type, party_id, total_amount, status, sign_date, effective_date, expiry_date, notes, operator_id, created_at, updated_at, deleted_at FROM contracts WHERE deleted_at IS NULL AND (?1 IS NULL OR contract_type = ?1) AND (?2 IS NULL OR status = ?2) AND (?3 IS NULL OR created_at >= ?3) AND (?4 IS NULL OR created_at <= ?4) AND (?5 IS NULL OR party_id = ?5) ORDER BY ";

/// The page of the contract ledger.
pub const LEDGER_PAGE: &'static str = " LIMIT ?6 OFFSET ?7";

/// Counts the contract ledger under the same filters.
pub const LEDGER_COUNT: &'static str = "SELECT COUNT(*) FROM contracts WHERE deleted_at IS NULL AND (?1 IS NULL OR contract_type = ?1) AND (?2 IS NULL OR status = ?2) AND (?3 IS NULL OR created_at >= ?3) AND (?4 IS NULL OR created_at <= ?4) AND (?5 IS NULL OR party_id = ?5)";

} // verus!
