use focus_bridge::overlay::{NativeCall, OverlayController, OverlayError, OverlayParams};

fn yellow() -> OverlayParams {
    OverlayParams::new(1000, 1000, 0, 20000, 300)
}

fn cyan() -> OverlayParams {
    OverlayParams::new(0, 1000, 1000, 20000, 300)
}

#[test]
fn fresh_controller_has_no_overlay() {
    let c = OverlayController::new();
    assert!(!c.has_overlay());
    assert_eq!(c.calls.len(), 0);
}

#[test]
fn replacement_scenario_reaches_boundary_in_order() {
    let mut c = OverlayController::new();
    assert!(c.create_overlay(yellow(), 0).is_ok());
    assert!(c.create_overlay(cyan(), 0).is_ok());
    assert!(c.has_overlay());
    assert!(c.remove_overlay(0).is_ok());
    assert!(!c.has_overlay());
    // Exactly two creation calls and one removal call, in that order.
    assert_eq!(
        c.calls,
        vec![
            NativeCall::Create(yellow()),
            NativeCall::Create(cyan()),
            NativeCall::Remove,
        ]
    );
}

#[test]
fn replacement_leaves_exactly_one_live_overlay() {
    let mut c = OverlayController::new();
    assert!(c.create_overlay(yellow(), 0).is_ok());
    assert!(c.has_overlay());
    assert!(c.create_overlay(cyan(), 0).is_ok());
    // One live overlay, and it is the most recent one.
    assert!(c.has_overlay());
    assert_eq!(c.active, Some(cyan()));
    assert_eq!(c.calls.len(), 2);
}

#[test]
fn remove_without_overlay_is_a_successful_noop() {
    let mut c = OverlayController::new();
    assert!(c.remove_overlay(0).is_ok());
    assert!(c.remove_overlay(0).is_ok());
    // No call reached the native boundary.
    assert_eq!(c.calls.len(), 0);
    // A later creation is unaffected.
    assert!(c.create_overlay(yellow(), 0).is_ok());
    assert_eq!(c.active, Some(yellow()));
    assert_eq!(c.calls, vec![NativeCall::Create(yellow())]);
}

#[test]
fn failed_creation_keeps_previous_overlay() {
    let mut c = OverlayController::new();
    assert!(c.create_overlay(yellow(), 0).is_ok());
    assert_eq!(
        c.create_overlay(cyan(), -1),
        Err(OverlayError::CreateFailed)
    );
    // The previous overlay remains in exactly the state it was.
    assert_eq!(c.active, Some(yellow()));
    // The failed attempt still reached the boundary.
    assert_eq!(c.calls.len(), 2);
}

#[test]
fn failed_removal_keeps_overlay_live() {
    let mut c = OverlayController::new();
    assert!(c.create_overlay(yellow(), 0).is_ok());
    assert_eq!(c.remove_overlay(7), Err(OverlayError::RemoveFailed));
    assert_eq!(c.active, Some(yellow()));
    assert_eq!(c.calls, vec![NativeCall::Create(yellow()), NativeCall::Remove]);
}

#[test]
fn first_creation_from_empty_succeeds() {
    let mut c = OverlayController::new();
    assert_eq!(c.create_overlay(cyan(), 0), Ok(()));
    assert!(c.has_overlay());
    assert_eq!(c.active, Some(cyan()));
}
