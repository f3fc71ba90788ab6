//! Requests and decisions of the partial-pick removal endpoint.  The SQL
//! updates themselves are run by the database shell; this module holds the
//! request shapes and the rule that grades a batch of per-row results.

use vstd::prelude::*;

verus! {

/// A search for pick lines by run number.
#[derive(Debug)]
pub struct SearchRequest {
    /// The run number to search.
    pub runno: i32,
}

/// A request to remove the partial quantities of some rows of a run.
#[derive(Debug)]
pub struct RemoveRequest {
    /// The run number.
    pub run_no: i32,
    /// The rows to update.
    pub row_nums: Vec<i32>,
    /// Who asked, recorded on each updated row.
    pub user_logon: String,
}

/// What the removal endpoint returns.
#[derive(Debug)]
pub struct RemoveResponse {
    /// Whether any rows were updated without the whole batch failing.
    pub success: bool,
    /// A user-visible message.
    pub message: String,
    /// How many rows were updated.
    pub affected_rows: usize,
}

/// How a batch of per-row updates went.
#[derive(Debug, Clone, Copy, PartialEq, Eq, Structural)]
pub enum RemovalStatus {
    /// Every row updated without error.
    AllSucceeded,
    /// Some rows updated, some reported errors.
    PartiallyCompleted,
    /// No row updated and at least one error.
    Failed,
}

/// Whether a removal request names any rows; an empty request is refused
/// before any update runs.
pub fn has_rows(req: &RemoveRequest) -> (r: bool)
    ensures
        r == (req.row_nums@.len() > 0),
{
    req.row_nums.len() > 0
}

/// Grades a batch of per-row updates: clean success without errors,
/// partial completion when some rows updated despite errors, and failure
/// when nothing updated.
pub fn classify_removal(total_affected: u64, error_count: usize) -> (r: RemovalStatus)
    ensures
        r == RemovalStatus::AllSucceeded <==> error_count == 0,
        r == RemovalStatus::PartiallyCompleted <==> error_count > 0 && total_affected > 0,
        r == RemovalStatus::Failed <==> error_count > 0 && total_affected == 0,
{
    if error_count == 0 {
        RemovalStatus::AllSucceeded
    } else if total_affected > 0 {
        RemovalStatus::PartiallyCompleted
    } else {
        RemovalStatus::Failed
    }
}

/// Whether a graded batch counts as a success in the response body: only a
/// batch where nothing updated does not.
pub fn removal_success(status: RemovalStatus) -> (r: bool)
    ensures
        r == (status != RemovalStatus::Failed),
{
    match status {
        RemovalStatus::Failed => false,
        _ => true,
    }
}

} // verus!
