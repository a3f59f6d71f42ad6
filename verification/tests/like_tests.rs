use delicate_scheduler::like::like_match;

#[test]
fn percent_matches_any_run() {
    assert!(like_match("back%", "backup"));
    assert!(like_match("back%", "back"));
    assert!(like_match("%up", "backup"));
    assert!(like_match("%ck%", "backup"));
    assert!(like_match("%", ""));
    assert!(like_match("%", "anything"));
}

#[test]
fn percent_does_not_reorder() {
    assert!(!like_match("back%", "rollback"));
    assert!(!like_match("%back", "backup"));
}

#[test]
fn underscore_matches_exactly_one() {
    assert!(like_match("b_ckup", "backup"));
    assert!(!like_match("b_ckup", "bckup"));
    assert!(!like_match("_", ""));
    assert!(like_match("_", "x"));
}

#[test]
fn plain_text_must_match_whole() {
    assert!(like_match("backup", "backup"));
    assert!(!like_match("backup", "backups"));
    assert!(!like_match("backup", "a backup"));
    assert!(like_match("", ""));
    assert!(!like_match("", "x"));
}

#[test]
fn mixed_wildcards() {
    assert!(like_match("b%k_p", "backup"));
    assert!(!like_match("b%k_p", "backups"));
}
