pub mod dispatch;
pub mod scratch;
pub mod validation;

pub use dispatch::{
    classify_output, clamp_history_limit, failure_result, plan_history, plan_scan, plan_stats,
    plan_sync_check, ScanOptions, ScanResult, SyncCheckOptions, DEFAULT_HISTORY_LIMIT,
    FAILURE_EXIT_CODE, MAX_HISTORY_LIMIT,
};
pub use scratch::TempDir;
pub use validation::{
    expand_tilde, marker_path, resolve_canonical, validate_format, validate_path_string, validate_repo_path,
    PathFacts, ValidationError, MAX_PATH_LENGTH,
};
