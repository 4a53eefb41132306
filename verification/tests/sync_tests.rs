use hnscraper::{SyncProgress, STOP_AFTER_EXISTING};

#[test]
fn stops_after_five_existing_in_a_row() {
    let mut p = SyncProgress::new();
    for _ in 0..4 {
        assert!(!p.record(false));
    }
    assert!(p.record(false));
    assert_eq!(p.created_count(), 0);
    assert_eq!(STOP_AFTER_EXISTING, 5);
}

#[test]
fn creation_resets_the_run() {
    let mut p = SyncProgress::new();
    for _ in 0..4 {
        assert!(!p.record(false));
    }
    assert!(!p.record(true));
    for _ in 0..4 {
        assert!(!p.record(false));
    }
    assert!(!p.record(true));
    assert!(!p.record(true));
    assert_eq!(p.created_count(), 3);
    for _ in 0..4 {
        assert!(!p.record(false));
    }
    assert!(p.record(false));
    assert_eq!(p.created_count(), 3);
}
