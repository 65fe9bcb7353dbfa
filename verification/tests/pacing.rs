use coffee_level::bridge::{remaining_budget, FrameBridge};

#[test]
fn budget_is_what_the_previous_frame_left() {
    assert_eq!(remaining_budget(16, 7), 9);
    assert_eq!(remaining_budget(16, 0), 16);
    assert_eq!(remaining_budget(16, 16), 0);
    assert_eq!(remaining_budget(16, 40), 0);
}

#[test]
fn timeout_reuses_the_previous_value() {
    let mut bridge = FrameBridge::new();
    // Before any sample, the sentinel is all there is.
    assert_eq!(bridge.frame_consume(false), 0);
    bridge.emit(85);
    assert_eq!(bridge.frame_consume(true), 85);
    // No sample in time: the stale value is delivered, not a default.
    assert_eq!(bridge.frame_consume(false), 85);
    assert_eq!(bridge.frame_consume(false), 85);
}

#[test]
fn samples_cross_in_production_order() {
    let mut bridge = FrameBridge::new();
    bridge.emit(30);
    bridge.emit(85);
    bridge.emit(10);
    assert_eq!(bridge.frame_consume(true), 30);
    // A timeout in between does not reorder or drop anything.
    assert_eq!(bridge.frame_consume(false), 30);
    assert_eq!(bridge.frame_consume(true), 85);
    assert_eq!(bridge.frame_consume(true), 10);
    assert_eq!(bridge.frame_consume(false), 10);
}
