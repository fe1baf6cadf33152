use ferrum::history::HistoryLog;
use ferrum::url::normalize;

#[test]
fn back_retraces_three_records() {
    let mut h = HistoryLog::new();
    h.record(normalize("a.com"));
    h.record(normalize("b.com"));
    h.record(normalize("c.com"));
    assert_eq!(h.go_back().unwrap().s, "https://b.com");
    assert_eq!(h.go_back().unwrap().s, "https://a.com");
    assert!(h.go_back().is_none());
}

#[test]
fn record_after_back_truncates_forward_history() {
    let mut h = HistoryLog::new();
    h.record(normalize("a.com"));
    h.record(normalize("b.com"));
    assert_eq!(h.go_back().unwrap().s, "https://a.com");
    h.record(normalize("c.com"));
    assert_eq!(h.entries.len(), 2);
    assert_eq!(h.entries[0].s, "https://a.com");
    assert_eq!(h.entries[1].s, "https://c.com");
    assert!(h.go_forward().is_none());
}

#[test]
fn forward_after_back_returns_the_later_entry() {
    let mut h = HistoryLog::new();
    h.record(normalize("a.com"));
    h.record(normalize("b.com"));
    assert_eq!(h.go_back().unwrap().s, "https://a.com");
    assert_eq!(h.go_forward().unwrap().s, "https://b.com");
    assert!(h.go_forward().is_none());
}

#[test]
fn traversal_never_changes_log_length() {
    let mut h = HistoryLog::new();
    h.record(normalize("a.com"));
    h.record(normalize("b.com"));
    h.record(normalize("c.com"));
    for _ in 0..7 {
        let _ = h.go_back();
        let _ = h.go_forward();
    }
    assert_eq!(h.entries.len(), 3);
}

#[test]
fn empty_log_has_no_traversal() {
    let mut h = HistoryLog::new();
    assert!(!h.can_go_back());
    assert!(!h.can_go_forward());
    assert!(h.go_back().is_none());
    assert!(h.go_forward().is_none());
    assert_eq!(h.entries.len(), 0);
}

#[test]
fn can_go_flags_track_the_cursor() {
    let mut h = HistoryLog::new();
    h.record(normalize("a.com"));
    assert!(!h.can_go_back());
    assert!(!h.can_go_forward());
    h.record(normalize("b.com"));
    assert!(h.can_go_back());
    assert!(!h.can_go_forward());
    let _ = h.go_back();
    assert!(!h.can_go_back());
    assert!(h.can_go_forward());
}
