use ferrum::engine::BrowserEngine;
use ferrum::tabs::NavError;
use ferrum::url::normalize;

#[test]
fn end_to_end_navigate_search_and_back() {
    let mut e = BrowserEngine::new();
    let id = e.new_tab();
    assert_eq!(id, 1);

    let t = e.navigate_to("github.com");
    assert_eq!(t.s, "https://github.com");
    assert_eq!(e.active_tab().target.s, "https://github.com");
    assert!(e.active_tab().loading);
    assert_eq!(e.active_tab().title, "Loading...");

    e.finish_load(&t, None);
    assert!(!e.active_tab().loading);
    assert_eq!(e.active_tab().title, "github.com");

    let q = e.navigate_to("rust programming");
    assert!(q.s.contains("rust%20programming"));
    e.finish_load(&q, None);

    let back = e.go_back().expect("one step back");
    assert_eq!(back.s, "https://github.com");
    assert_eq!(e.active_tab().target.s, "https://github.com");
}

#[test]
fn navigation_records_and_traversal_does_not() {
    let mut e = BrowserEngine::new();
    e.navigate_to("a.com");
    e.navigate_to("b.com");
    e.navigate_to("c.com");
    assert_eq!(e.history.entries.len(), 3);
    for _ in 0..5 {
        let _ = e.go_back();
        let _ = e.go_forward();
    }
    assert_eq!(e.history.entries.len(), 3);
}

#[test]
fn back_and_forward_update_the_active_tab() {
    let mut e = BrowserEngine::new();
    e.navigate_to("a.com");
    e.navigate_to("b.com");
    let b = e.go_back().expect("back to a");
    assert_eq!(b.s, "https://a.com");
    assert_eq!(e.active_tab().target.s, "https://a.com");
    let f = e.go_forward().expect("forward to b");
    assert_eq!(f.s, "https://b.com");
    assert_eq!(e.active_tab().target.s, "https://b.com");
    assert!(e.go_forward().is_none());
}

#[test]
fn can_go_flags_follow_the_log() {
    let mut e = BrowserEngine::new();
    assert!(!e.can_go_back());
    assert!(!e.can_go_forward());
    e.navigate_to("a.com");
    e.navigate_to("b.com");
    assert!(e.can_go_back());
    assert!(!e.can_go_forward());
    let _ = e.go_back();
    assert!(!e.can_go_back());
    assert!(e.can_go_forward());
}

#[test]
fn stale_fetch_result_is_discarded() {
    let mut e = BrowserEngine::new();
    let first = e.navigate_to("a.com");
    let _second = e.navigate_to("b.com");
    e.finish_load(&first, Some(String::from("Stale Title")));
    assert!(e.active_tab().loading);
    assert_eq!(e.active_tab().title, "Loading...");
    assert_eq!(e.active_tab().target.s, "https://b.com");
}

#[test]
fn finish_load_prefers_the_fetched_title() {
    let mut e = BrowserEngine::new();
    let t = e.navigate_to("rust-lang.org");
    e.finish_load(&t, Some(String::from("Rust Programming Language")));
    assert_eq!(e.active_tab().title, "Rust Programming Language");
    assert!(!e.active_tab().loading);
}

#[test]
fn close_and_switch_report_errors_and_keep_history() {
    let mut e = BrowserEngine::new();
    e.navigate_to("a.com");
    assert_eq!(e.close_tab(0), Err(NavError::EmptyTabSetViolation));
    assert_eq!(e.close_tab(3), Err(NavError::InvalidIndex));
    assert_eq!(e.switch_tab(3), Err(NavError::InvalidIndex));
    e.new_tab();
    assert_eq!(e.switch_tab(0), Ok(()));
    assert_eq!(e.close_tab(1), Ok(()));
    assert_eq!(e.history.entries.len(), 1);
    assert_eq!(e.tabs.tabs.len(), 1);
}

#[test]
fn new_tab_starts_blank_and_active() {
    let mut e = BrowserEngine::new();
    e.navigate_to("a.com");
    e.new_tab();
    assert_eq!(e.active_tab().target.s, "about:blank");
    assert_eq!(e.active_tab().title, "New Tab");
    let t = normalize("b.com");
    assert_eq!(t.s, "https://b.com");
}
