use showcase::guard::DraftGuard;
use showcase::refresh::{
    action_message, initial_refresh_state, refresh_next, refresh_page_lines, RefreshAction, RefreshEvent,
    RefreshState,
};

fn guard(draft: &str, saved: &str) -> DraftGuard {
    DraftGuard::new(draft.to_string(), saved.to_string())
}

#[test]
fn clean_page_leaves_without_asking() {
    let mut g = guard("notes", "notes");
    assert!(!g.is_dirty());
    assert!(g.request_leave());
    assert!(!g.confirm_open);
    assert_eq!(g.save_label(), "Saved");
    assert_eq!(g.status_line(), "No unsaved changes \u{2014} leaving is allowed.");
}

#[test]
fn dirty_page_asks_and_stays() {
    let mut g = guard("notes!", "notes");
    assert!(g.is_dirty());
    assert_eq!(g.save_label(), "Save");
    assert_eq!(g.status_line(), "Unsaved changes \u{2014} leaving will ask first.");
    assert!(!g.request_leave());
    assert!(g.confirm_open);
    assert_eq!(g.draft, "notes!");
    assert_eq!(g.saved, "notes");
}

#[test]
fn discard_throws_edits_away_and_leaves() {
    let mut g = guard("draft", "");
    assert!(!g.request_leave());
    let (message, left) = g.discard();
    assert_eq!(message, "Discarded");
    assert!(left);
    assert_eq!(g.draft, "");
    assert!(!g.confirm_open);
}

#[test]
fn keep_editing_keeps_the_draft() {
    let mut g = guard("draft", "");
    assert!(!g.request_leave());
    g.keep_editing();
    assert!(!g.confirm_open);
    assert_eq!(g.draft, "draft");
    assert!(!g.request_leave());
}

#[test]
fn save_and_revert_make_the_page_clean() {
    let mut g = guard("", "");
    g.edit("hello".to_string());
    assert!(g.is_dirty());
    assert_eq!(g.save(), "Saved \u{2014} leaving is allowed now");
    assert_eq!(g.saved, "hello");
    assert!(g.request_leave());
    g.edit("hello world".to_string());
    g.revert();
    assert_eq!(g.draft, "hello");
    assert!(!g.is_dirty());
    g.edit("x".to_string());
    g.edit("hello".to_string());
    assert!(!g.is_dirty());
}

#[test]
fn refresh_cycle_counts_once() {
    let s = initial_refresh_state();
    assert_eq!(s, RefreshState { count: 0, busy: false });
    let (s, a) = refresh_next(s, RefreshEvent::Pulled);
    assert_eq!(a, RefreshAction::StartRequest);
    assert_eq!(action_message(a), Some("Refreshing\u{2026}"));
    assert!(s.busy);
    let (s2, a2) = refresh_next(s, RefreshEvent::Pulled);
    assert_eq!(a2, RefreshAction::Nothing);
    assert_eq!(action_message(a2), None);
    assert_eq!(s2, s);
    let (s3, a3) = refresh_next(s2, RefreshEvent::Finished);
    assert_eq!(a3, RefreshAction::AnnounceDone);
    assert_eq!(action_message(a3), Some("Refreshed"));
    assert_eq!(s3, RefreshState { count: 1, busy: false });
}

#[test]
fn refresh_page_lines_name_the_batch() {
    let lines = refresh_page_lines(3);
    assert_eq!(lines.len(), 14);
    assert_eq!(lines[0], "Pull down from the top");
    assert_eq!(lines[1], "Refreshed 3 times");
    assert_eq!(lines[2], "Item 1 \u{2014} batch 3");
    assert_eq!(lines[13], "Item 12 \u{2014} batch 3");
    assert_eq!(refresh_page_lines(-2)[1], "Refreshed -2 times");
}
