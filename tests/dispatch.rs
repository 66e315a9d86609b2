use std::path::Path;

use skillsinspector::{
    classify_output, clamp_history_limit, failure_result, plan_history, plan_scan, plan_stats,
    plan_sync_check, ScanOptions, SyncCheckOptions, FAILURE_EXIT_CODE,
};

fn make_repo(with_marker: bool) -> tempfile::TempDir {
    let dir = tempfile::tempdir().unwrap();
    if with_marker {
        tempfile::Builder::new().prefix(".git").rand_bytes(0).disable_cleanup(true).tempdir_in(dir.path()).unwrap();
    }
    dir
}

fn canonical(p: &Path) -> String {
    p.canonicalize().unwrap().to_str().unwrap().to_string()
}

#[test]
fn test_get_scan_history_limit_validation() {
    assert_eq!(clamp_history_limit(Some(50)), 50);
    assert_eq!(clamp_history_limit(Some(2000)), 1000);
    assert_eq!(clamp_history_limit(Some(1000)), 1000);
}

#[test]
fn history_limit_defaults_to_fifty() {
    assert_eq!(clamp_history_limit(None), 50);
    assert_eq!(clamp_history_limit(Some(0)), 0);
    assert_eq!(clamp_history_limit(Some(1001)), 1000);
}

#[test]
fn classify_exit_codes_and_stderr() {
    let ok = classify_output("out".to_string(), String::new(), Some(0));
    assert!(ok.success);
    assert_eq!(ok.exit_code, 0);
    assert_eq!(ok.output, "out");
    assert_eq!(ok.error, None);

    let findings = classify_output("found".to_string(), String::new(), Some(1));
    assert!(findings.success);
    assert_eq!(findings.exit_code, 1);

    let broken = classify_output(String::new(), String::new(), Some(2));
    assert!(!broken.success);
    assert_eq!(broken.exit_code, 2);
    assert_eq!(broken.error, None);

    let noisy = classify_output("out".to_string(), "warn".to_string(), Some(0));
    assert!(!noisy.success);
    assert_eq!(noisy.error, Some("warn".to_string()));
}

#[test]
fn classify_signal_uses_failure_code() {
    let killed = classify_output(String::new(), String::new(), None);
    assert_eq!(killed.exit_code, FAILURE_EXIT_CODE);
    assert_eq!(killed.exit_code, 1);
    assert!(killed.success);
    let killed_noisy = classify_output(String::new(), "boom".to_string(), None);
    assert!(!killed_noisy.success);
    let negative = classify_output(String::new(), String::new(), Some(-1));
    assert!(negative.success);
}

#[test]
fn history_limit_digits() {
    let args = plan_history(None, Some(987), None).unwrap();
    assert_eq!(args[4], "987");
    let args = plan_history(None, Some(0), None).unwrap();
    assert_eq!(args[4], "0");
    let args = plan_history(None, Some(100), None).unwrap();
    assert_eq!(args[4], "100");
}

#[test]
fn failure_result_shape() {
    let r = failure_result("boom".to_string());
    assert!(!r.success);
    assert_eq!(r.output, "");
    assert_eq!(r.exit_code, 1);
    assert_eq!(r.error, Some("boom".to_string()));
}

#[test]
fn plan_scan_of_repository() {
    let repo = make_repo(true);
    let options = ScanOptions { repo: repo.path().to_str().unwrap().to_string(), format: "json".to_string() };
    let args = plan_scan(&options, None).unwrap();
    assert_eq!(args, vec!["scan", "--repo", &canonical(repo.path()), "--format", "json", "--no-save"]);
    let outcome = classify_output("tool stdout".to_string(), String::new(), Some(0));
    assert!(outcome.success);
    assert_eq!(outcome.exit_code, 0);
    assert_eq!(outcome.error, None);
    assert_eq!(outcome.output, "tool stdout");
}

#[test]
fn plan_scan_refuses_traversal() {
    let options = ScanOptions { repo: "../secret".to_string(), format: "json".to_string() };
    let refused = plan_scan(&options, None).unwrap_err();
    assert!(!refused.success);
    assert_eq!(refused.exit_code, 1);
    assert_eq!(refused.output, "");
    assert_eq!(refused.error, Some("Repository path contains path traversal sequences".to_string()));
}

#[test]
fn plan_scan_checks_format_first() {
    let options = ScanOptions { repo: "../secret".to_string(), format: "yaml".to_string() };
    let refused = plan_scan(&options, None).unwrap_err();
    assert_eq!(refused.error, Some("Format must be 'json' or 'text'".to_string()));
}

#[test]
fn plan_sync_check_of_repository() {
    let repo = make_repo(true);
    let options = SyncCheckOptions { repo: repo.path().to_str().unwrap().to_string(), format: "text".to_string() };
    let args = plan_sync_check(&options, None).unwrap();
    assert_eq!(args, vec!["sync-check", "--repo", &canonical(repo.path()), "--format", "text"]);
}

#[test]
fn plan_sync_check_refuses_plain_directory() {
    let repo = make_repo(false);
    let options = SyncCheckOptions { repo: repo.path().to_str().unwrap().to_string(), format: "text".to_string() };
    let refused = plan_sync_check(&options, None).unwrap_err();
    assert_eq!(refused.error, Some("Repository path is not a git repository".to_string()));
}

#[test]
fn plan_history_without_repository() {
    let args = plan_history(None, Some(2000), None).unwrap();
    assert_eq!(args, vec!["history", "--format", "json", "--limit", "1000"]);
    let args = plan_history(None, None, None).unwrap();
    assert_eq!(args, vec!["history", "--format", "json", "--limit", "50"]);
}

#[test]
fn plan_history_with_repository() {
    let repo = make_repo(true);
    let args = plan_history(Some(repo.path().to_str().unwrap()), Some(7), None).unwrap();
    assert_eq!(args, vec!["history", "--repo", &canonical(repo.path()), "--format", "json", "--limit", "7"]);
    let refused = plan_history(Some("/nonexistent/path/12345"), Some(7), None).unwrap_err();
    assert_eq!(refused, "Repository path does not exist");
}

#[test]
fn plan_stats_of_repository() {
    let repo = make_repo(true);
    let args = plan_stats(repo.path().to_str().unwrap(), None).unwrap();
    assert_eq!(args, vec!["stats", "--repo", &canonical(repo.path())]);
    assert_eq!(plan_stats("   ", None).unwrap_err(), "Repository path cannot be empty");
}
