use dioxus_virtual_scroll::throttle::ScrollThrottle;

#[test]
fn new_throttle_is_idle() {
    assert!(!ScrollThrottle::new().is_pending());
}

#[test]
fn first_scroll_starts_a_read() {
    let mut t = ScrollThrottle::new();
    assert!(t.on_scroll(true));
    assert!(t.is_pending());
}

#[test]
fn scrolls_while_pending_are_coalesced() {
    let mut t = ScrollThrottle::new();
    assert!(t.on_scroll(true));
    assert!(!t.on_scroll(true));
    assert!(!t.on_scroll(false));
    assert!(t.is_pending());
}

#[test]
fn settled_throttle_reads_again() {
    let mut t = ScrollThrottle::new();
    assert!(t.on_scroll(true));
    t.settle();
    assert!(!t.is_pending());
    assert!(t.on_scroll(true));
}

#[test]
fn scroll_without_element_does_not_block() {
    let mut t = ScrollThrottle::new();
    assert!(!t.on_scroll(false));
    assert!(!t.is_pending());
    assert!(t.on_scroll(true));
}
