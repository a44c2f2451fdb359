//! Restoring the Codex session history from the backup of its unification.
use vstd::prelude::*;

verus! {

/// What restoring the sessions has brought about.
#[derive(Debug)]
pub struct HistoryRestoreOutcome {
    pub restored_jsonl_files: usize,
    pub restored_state_rows: usize,
    /// Why nothing was restored, where that is so.
    pub skipped_reason: Option<String>,
}

/// What the frontend is told of a restored history.
#[derive(Debug)]
pub struct CodexUnifyHistoryRestoreResult {
    pub restored_jsonl_files: usize,
    pub restored_state_rows: usize,
    /// Why nothing was restored, so that the frontend can say so instead of reporting success
    /// with nothing done.
    pub skipped_reason: Option<String>,
}

/// Reports how restoring the sessions went. `joined` is the result of the background task: its
/// own failure, that of the restoration, or what was restored.
pub fn restore_codex_unified_history(
    joined: Result<Result<HistoryRestoreOutcome, String>, String>,
) -> (reply: Result<CodexUnifyHistoryRestoreResult, String>)
    ensures
        reply == match joined {
            Err(message) => Err(message),
            Ok(Err(message)) => Err(message),
            Ok(Ok(outcome)) => Ok(
                (CodexUnifyHistoryRestoreResult {
                    restored_jsonl_files: outcome.restored_jsonl_files,
                    restored_state_rows: outcome.restored_state_rows,
                    skipped_reason: outcome.skipped_reason,
                }),
            ),
        },
{
    match joined {
        Err(message) => Err(message),
        Ok(Err(message)) => Err(message),
        Ok(Ok(outcome)) => Ok(
            CodexUnifyHistoryRestoreResult {
                restored_jsonl_files: outcome.restored_jsonl_files,
                restored_state_rows: outcome.restored_state_rows,
                skipped_reason: outcome.skipped_reason,
            },
        ),
    }
}

} // verus!
