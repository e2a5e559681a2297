use jpass::toast::{ToastCenter, ToastState};

fn toast(label: &str, ms: u64) -> ToastState {
    ToastState { id: 0, label: label.to_string(), duration_ms: ms, remaining_ms: ms }
}

#[test]
fn show_gives_increasing_ids_and_tracks_the_latest() {
    let mut c = ToastCenter::new();
    assert!(c.toasts.is_empty());
    c.show(toast("Copied", 1000));
    c.show(toast("Saved", 1000));
    assert_eq!(c.toasts.len(), 2);
    assert_eq!(c.toasts[0].id, 1);
    assert_eq!(c.toasts[1].id, 2);
    assert_eq!(c.latest_id, 2);
    assert_eq!(c.toasts[1].label, "Saved");
}

#[test]
fn cancel_removes_only_that_toast() {
    let mut c = ToastCenter::new();
    c.show(toast("a", 100));
    c.show(toast("b", 100));
    c.cancel(1);
    assert_eq!(c.toasts.len(), 1);
    assert_eq!(c.toasts[0].label, "b");
    assert_eq!(c.latest_id, 2);
    // A new toast still gets an id above every visible one.
    c.show(toast("c", 100));
    assert_eq!(c.latest_id, 3);
}

#[test]
fn tick_counts_down_drops_expired_and_clears_on_latest_expiry() {
    let mut c = ToastCenter::new();
    c.show(toast("long", 500));
    c.show(toast("short", 100));
    assert!(!c.tick(50));
    assert_eq!(c.toasts[0].remaining_ms, 450);
    assert_eq!(c.toasts[1].remaining_ms, 50);
    // The latest one runs out: clear the clipboard.
    assert!(c.tick(50));
    assert_eq!(c.toasts.len(), 1);
    assert_eq!(c.toasts[0].label, "long");
    // An older toast running out does not clear it.
    let mut d = ToastCenter::new();
    d.show(toast("old", 50));
    d.show(toast("new", 500));
    assert!(!d.tick(60));
    assert_eq!(d.toasts.len(), 1);
    assert_eq!(d.toasts[0].remaining_ms, 440);
}
