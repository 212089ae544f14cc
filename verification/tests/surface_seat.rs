use wlcore::seat::{Capabilities, InputDeviceSet};
use wlcore::surface::{State, ToplevelEvent};

#[test]
fn first_configure_acks_then_commits_once() {
    let mut state = State::new();
    let effects = state.handle_configure(7);
    assert_eq!(effects.ack_serial, Some(7));
    assert!(!effects.rearm_frame);
    let buffer = effects.commit.expect("first configure must commit");
    assert_eq!(buffer.width(), 600);
    assert_eq!(buffer.height(), 400);
}

#[test]
fn later_configures_ack_in_order_without_committing() {
    let mut state = State::new();
    let first = state.handle_configure(10);
    assert_eq!(first.ack_serial, Some(10));
    assert!(first.commit.is_some());
    let second = state.handle_configure(11);
    assert_eq!(second.ack_serial, Some(11));
    assert!(second.commit.is_none());
    let third = state.handle_configure(12);
    assert_eq!(third.ack_serial, Some(12));
    assert!(third.commit.is_none());
}

#[test]
fn resize_applies_at_the_next_draw() {
    let mut state = State::new();
    state.handle_toplevel(ToplevelEvent::Configure { width: 800, height: 600 });
    let effects = state.handle_configure(1);
    let buffer = effects.commit.expect("first configure must commit");
    assert_eq!(buffer.width(), 800);
    assert_eq!(buffer.height(), 600);
}

#[test]
fn zero_geometry_falls_back_to_the_default() {
    let mut state = State::new();
    state.handle_toplevel(ToplevelEvent::Configure { width: 800, height: 600 });
    state.handle_toplevel(ToplevelEvent::Configure { width: 0, height: 600 });
    let buffer = state.draw();
    assert_eq!(buffer.width(), 600);
    assert_eq!(buffer.height(), 400);
}

#[test]
fn close_request_marks_the_surface_closed() {
    let mut state = State::new();
    assert!(!state.is_closed());
    state.handle_toplevel(ToplevelEvent::Close);
    assert!(state.is_closed());
}

#[test]
fn frame_callback_rearms_before_redrawing() {
    let mut state = State::new();
    state.handle_configure(1);
    let effects = state.handle_frame_callback(1000);
    assert!(effects.rearm_frame);
    assert!(effects.ack_serial.is_none());
    assert!(effects.commit.is_some());
}

#[test]
fn no_redraw_and_no_frame_request_after_close() {
    let mut state = State::new();
    state.handle_configure(1);
    state.handle_toplevel(ToplevelEvent::Close);
    let effects = state.handle_frame_callback(1000);
    assert!(!effects.rearm_frame);
    assert!(effects.commit.is_none());
}

#[test]
fn handlers_track_the_capability_mask_exactly() {
    let mut devices = InputDeviceSet::new();

    let first = devices.apply_capabilities(Capabilities {
        pointer: true,
        keyboard: true,
        touch: false,
    });
    assert!(first.create_pointer);
    assert!(first.create_keyboard);
    assert!(!first.create_touch);
    assert!(!first.destroy_pointer && !first.destroy_keyboard && !first.destroy_touch);
    assert!(devices.pointer && devices.keyboard && !devices.touch);

    // Losing touch never existed; dropping the pointer leaves the keyboard.
    let second = devices.apply_capabilities(Capabilities {
        pointer: false,
        keyboard: true,
        touch: false,
    });
    assert!(second.destroy_pointer);
    assert!(!second.destroy_keyboard);
    assert!(!second.create_keyboard);
    assert!(!devices.pointer && devices.keyboard && !devices.touch);
}

#[test]
fn repeated_identical_masks_are_idempotent() {
    let mut devices = InputDeviceSet::new();
    let mask = Capabilities { pointer: true, keyboard: false, touch: true };
    devices.apply_capabilities(mask);
    let again = devices.apply_capabilities(mask);
    assert!(!again.create_pointer && !again.destroy_pointer);
    assert!(!again.create_keyboard && !again.destroy_keyboard);
    assert!(!again.create_touch && !again.destroy_touch);
    assert!(devices.pointer && !devices.keyboard && devices.touch);
}

#[test]
fn capability_bits_decode_per_kind() {
    let caps = Capabilities::from_bits(1 | 4);
    assert!(caps.pointer);
    assert!(!caps.keyboard);
    assert!(caps.touch);
    let none = Capabilities::from_bits(0);
    assert!(!none.pointer && !none.keyboard && !none.touch);
}
