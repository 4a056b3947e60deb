use egaku2d::RefreshTimer;

#[test]
fn not_ready_before_the_interval() {
    let t = RefreshTimer::new(60);
    assert!(!t.is_ready_after(0));
    assert!(!t.is_ready_after(59));
}

#[test]
fn ready_once_the_interval_has_passed() {
    let t = RefreshTimer::new(60);
    assert!(t.is_ready_after(60));
    assert!(t.is_ready_after(61));
    assert!(t.is_ready_after(u128::MAX));
}

#[test]
fn zero_interval_is_always_ready() {
    let mut t = RefreshTimer::new(0);
    assert!(t.is_ready_after(0));
    assert!(t.is_ready());
}

#[test]
fn huge_interval_is_never_ready() {
    let mut t = RefreshTimer::new(usize::MAX);
    assert!(!t.is_ready());
}
