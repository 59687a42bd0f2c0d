use sync_clipboard::message::ClipboardContent;
use sync_clipboard::sync::{
    digest_eq, is_empty, should_apply, LocalDecision, RemoteDecision, SyncState, ECHO_WINDOW_MS,
};

fn text(s: &str) -> ClipboardContent {
    ClipboardContent::Text(s.into())
}

#[test]
fn empty_contents_are_empty() {
    assert!(is_empty(&text("")));
    assert!(!is_empty(&text("a")));
    assert!(is_empty(&ClipboardContent::Image {
        mime_type: "image/png".into(),
        data: vec![]
    }));
    assert!(!is_empty(&ClipboardContent::Image {
        mime_type: String::new(),
        data: vec![0]
    }));
}

#[test]
fn digest_equality() {
    let a = text("a").hash();
    let b = text("b").hash();
    assert!(digest_eq(&a, &a));
    assert!(!digest_eq(&a, &b));
}

#[test]
fn fresh_state_lets_changes_through() {
    let state = SyncState::new();
    assert!(matches!(state.decide_local(&text("x")), LocalDecision::Broadcast));
    match state.decide_remote(&text("x")) {
        RemoteDecision::CheckLocal(h) => assert_eq!(h, text("x").hash()),
        _ => panic!("expected a local check"),
    }
}

#[test]
fn empty_content_is_ignored() {
    let state = SyncState::new();
    assert!(matches!(state.decide_local(&text("")), LocalDecision::IgnoreEmpty));
    assert!(matches!(state.decide_remote(&text("")), RemoteDecision::IgnoreEmpty));
}

#[test]
fn applied_remote_content_is_not_echoed() {
    let mut state = SyncState::new();
    let c = text("from peer");
    state.record_applied(c.hash());
    assert!(matches!(state.decide_local(&c), LocalDecision::SuppressEcho));
    assert!(matches!(state.decide_remote(&c), RemoteDecision::SuppressEcho));
    // Other content still goes through.
    assert!(matches!(state.decide_local(&text("other")), LocalDecision::Broadcast));
}

#[test]
fn expiry_clears_matching_suppression_only() {
    let mut state = SyncState::new();
    let old = text("old");
    let new = text("new");
    state.record_applied(old.hash());
    state.record_applied(new.hash());
    state.expire(&old.hash());
    assert!(matches!(state.decide_local(&new), LocalDecision::SuppressEcho));
    state.expire(&new.hash());
    assert!(matches!(state.decide_local(&new), LocalDecision::Broadcast));
    assert!(matches!(state.decide_local(&old), LocalDecision::Broadcast));
}

#[test]
fn local_clipboard_with_same_content_is_not_rewritten() {
    let c = text("same");
    assert!(!should_apply(&c.hash(), &Some(text("same"))));
    assert!(should_apply(&c.hash(), &Some(text("different"))));
    assert!(should_apply(&c.hash(), &None));
}

#[test]
fn echo_window_is_800_ms() {
    assert_eq!(ECHO_WINDOW_MS, 800);
}
