use wlcore::keyboard::{decode_keycodes, keymap_text, KeyMapError, KeyboardState};
use wlcore::pointer::{PointerAxis, PointerEvent, PointerMsg};
use wlcore::text::{push_signed_decimal, u64_decimal};
use wlcore::pointer::axis_source_name;
use wlcore::touch::{TouchEvent, TouchMsg};

#[test]
fn pointer_enter_then_motion_finalizes_one_snapshot() {
    let mut aggregator = PointerEvent::new();
    assert!(aggregator
        .apply(PointerMsg::Enter { serial: 1, surface_x: 10, surface_y: 20 })
        .is_none());
    assert!(aggregator
        .apply(PointerMsg::Motion { time: 100, surface_x: 12, surface_y: 20 })
        .is_none());
    let snapshot = aggregator.apply(PointerMsg::Frame).expect("frame finalizes");
    assert!(snapshot.event_mask.enter);
    assert!(snapshot.event_mask.motion);
    assert!(!snapshot.event_mask.leave);
    assert!(!snapshot.event_mask.button);
    assert!(!snapshot.event_mask.axis);
    assert_eq!(snapshot.surface_x, 12);
    assert_eq!(snapshot.surface_y, 20);
    assert_eq!(snapshot.serial, 1);
    assert_eq!(snapshot.time, 100);

    // The accumulator reset to an empty mask and default fields.
    let empty = aggregator.apply(PointerMsg::Frame).expect("frame finalizes");
    assert_eq!(empty, PointerEvent::new());
}

#[test]
fn pointer_axis_fields_gate_on_their_axis() {
    let mut aggregator = PointerEvent::new();
    aggregator.apply(PointerMsg::Axis {
        time: 5,
        axis: PointerAxis::VerticalScroll,
        value: 640,
    });
    aggregator.apply(PointerMsg::AxisDiscrete { axis: PointerAxis::VerticalScroll, discrete: 2 });
    let snapshot = aggregator.apply(PointerMsg::Frame).unwrap();
    assert!(snapshot.event_mask.axis);
    assert!(snapshot.event_mask.axis_discrete);
    assert!(snapshot.vertical.valid);
    assert_eq!(snapshot.vertical.value, 640);
    assert_eq!(snapshot.vertical.discrete, 2);
    assert!(!snapshot.horizontal.valid);
}

#[test]
fn pointer_description_of_an_empty_frame() {
    let snapshot = PointerEvent::new();
    assert_eq!(snapshot.describe(), "pointer frame @ 0: ");
}

#[test]
fn pointer_description_mentions_present_fields_only() {
    let mut aggregator = PointerEvent::new();
    aggregator.apply(PointerMsg::Enter { serial: 1, surface_x: 10, surface_y: 20 });
    aggregator.apply(PointerMsg::Motion { time: 42, surface_x: 12, surface_y: 20 });
    let snapshot = aggregator.apply(PointerMsg::Frame).unwrap();
    assert_eq!(snapshot.describe(), "pointer frame @ 42: entered 12, 20 motion 12, 20");
}

#[test]
fn touch_two_downs_finalize_two_points() {
    let mut aggregator = TouchEvent::new();
    assert!(aggregator
        .apply(TouchMsg::Down { id: 1, time: 10, serial: 3, surface_x: 5, surface_y: 5 })
        .is_none());
    assert!(aggregator
        .apply(TouchMsg::Down { id: 2, time: 11, serial: 4, surface_x: 8, surface_y: 8 })
        .is_none());
    let snapshot = aggregator.apply(TouchMsg::Frame).expect("frame finalizes");
    assert_eq!(snapshot.point_count(), 2);
    let first = snapshot.point_at(0);
    assert_eq!(first.id, 1);
    assert!(first.mask.down);
    assert_eq!(first.surface_x, 5);
    assert_eq!(first.surface_y, 5);
    let second = snapshot.point_at(1);
    assert_eq!(second.id, 2);
    assert!(second.mask.down);
    assert_eq!(second.surface_x, 8);
    assert_eq!(second.surface_y, 8);

    // A subsequent up for point 1 finalizes a snapshot of only point 1,
    // with the up flag and nothing stale from the previous frame.
    assert!(aggregator.apply(TouchMsg::Up { id: 1 }).is_none());
    let snapshot = aggregator.apply(TouchMsg::Frame).expect("frame finalizes");
    assert_eq!(snapshot.point_count(), 1);
    let lifted = snapshot.point_at(0);
    assert_eq!(lifted.id, 1);
    assert!(lifted.mask.up);
    assert!(!lifted.mask.down);
}

#[test]
fn touch_motion_updates_the_same_point_record() {
    let mut aggregator = TouchEvent::new();
    aggregator.apply(TouchMsg::Down { id: 9, time: 1, serial: 2, surface_x: 5, surface_y: 6 });
    aggregator.apply(TouchMsg::Motion { id: 9, time: 2, surface_x: 7, surface_y: 8 });
    aggregator.apply(TouchMsg::Shape { id: 9, major: 64, minor: 32 });
    let snapshot = aggregator.apply(TouchMsg::Frame).unwrap();
    assert_eq!(snapshot.point_count(), 1);
    let point = snapshot.point_at(0);
    assert!(point.mask.down && point.mask.motion && point.mask.shape);
    assert_eq!(point.surface_x, 7);
    assert_eq!(point.surface_y, 8);
    assert_eq!(point.major, 64);
    assert_eq!(point.minor, 32);
    assert_eq!(snapshot.time(), 2);
    assert_eq!(snapshot.serial(), 2);
}

#[test]
fn touch_cancel_is_a_global_flag() {
    let mut aggregator = TouchEvent::new();
    aggregator.apply(TouchMsg::Cancel);
    let snapshot = aggregator.apply(TouchMsg::Frame).unwrap();
    assert!(snapshot.cancelled());
    assert_eq!(snapshot.point_count(), 0);
}

#[test]
fn keymap_compile_failure_keeps_the_active_state() {
    let mut keyboard = KeyboardState::new();
    assert!(!keyboard.has_keymap());
    assert!(keyboard.apply_keymap_compile(true).is_ok());
    assert!(keyboard.has_keymap());
    keyboard.handle_modifiers(1, 2, 3, 4);

    let outcome = keyboard.apply_keymap_compile(false);
    assert_eq!(outcome, Err(KeyMapError));
    assert!(keyboard.has_keymap());
    assert_eq!(keyboard.keymap_generation(), 1);
    let mods = keyboard.modifiers();
    assert_eq!(mods.depressed, 1);
    assert_eq!(mods.latched, 2);
    assert_eq!(mods.locked, 3);
    assert_eq!(mods.group, 4);
    // Key events still resolve against the intact table.
    assert_eq!(keyboard.resolve_key(30), 38);
}

#[test]
fn keymap_success_replaces_table_and_state_wholesale() {
    let mut keyboard = KeyboardState::new();
    keyboard.apply_keymap_compile(true).unwrap();
    keyboard.handle_modifiers(1, 2, 3, 4);
    keyboard.apply_keymap_compile(true).unwrap();
    assert_eq!(keyboard.keymap_generation(), 2);
    let mods = keyboard.modifiers();
    assert_eq!(mods.depressed, 0);
    assert_eq!(mods.latched, 0);
    assert_eq!(mods.locked, 0);
    assert_eq!(mods.group, 0);
}

#[test]
fn keys_resolve_with_the_evdev_offset() {
    let mut keyboard = KeyboardState::new();
    keyboard.apply_keymap_compile(true).unwrap();
    assert_eq!(keyboard.resolve_key(0), 8);
    assert_eq!(keyboard.resolve_key(30), 38);
    let held = keyboard.resolve_held_keys(&vec![1, 2, 57]);
    assert_eq!(held, vec![9, 10, 65]);
}

#[test]
fn keymap_text_strips_exactly_the_terminator() {
    let blob = [b'a', b'b', b'c', 0u8];
    assert_eq!(keymap_text(&blob), b"abc");
    let only_terminator = [0u8];
    assert_eq!(keymap_text(&only_terminator), b"");
}

#[test]
fn held_key_arrays_decode_little_endian() {
    let bytes = [30, 0, 0, 0, 0x01, 0x02, 0x03, 0x04];
    let keys = decode_keycodes(&bytes);
    assert_eq!(keys, vec![30, 0x04030201]);
    assert_eq!(decode_keycodes(&[]), Vec::<u32>::new());
}

#[test]
fn keymap_error_has_its_diagnostic_text() {
    assert_eq!(KeyMapError.message(), "Error getting keymap");
}

#[test]
fn decimal_rendering_matches() {
    assert_eq!(u64_decimal(0), "0");
    assert_eq!(u64_decimal(7), "7");
    assert_eq!(u64_decimal(1234567890), "1234567890");
}

#[test]
fn axis_sources_have_their_names() {
    assert_eq!(axis_source_name(0), "wheel");
    assert_eq!(axis_source_name(1), "finger");
    assert_eq!(axis_source_name(2), "continuous");
    assert_eq!(axis_source_name(3), "wheel tilt");
    assert_eq!(axis_source_name(17), "unknown source");
}

#[test]
fn touch_description_of_an_empty_frame() {
    let snapshot = TouchEvent::new();
    assert_eq!(snapshot.describe(), "touch event @ 0:\n");
}

#[test]
fn touch_description_lists_each_point() {
    let mut aggregator = TouchEvent::new();
    aggregator.apply(TouchMsg::Down { id: 1, time: 3, serial: 4, surface_x: 5, surface_y: 6 });
    aggregator.apply(TouchMsg::Up { id: 2 });
    let snapshot = aggregator.apply(TouchMsg::Frame).unwrap();
    assert_eq!(
        snapshot.describe(),
        "touch event @ 3:\npoint 1: down 5,6 \npoint 2: up \n"
    );
}

#[test]
fn signed_decimals_carry_their_sign() {
    let mut out = String::new();
    push_signed_decimal(-42, &mut out);
    out.push(' ');
    push_signed_decimal(0, &mut out);
    out.push(' ');
    push_signed_decimal(i64::MIN, &mut out);
    assert_eq!(out, "-42 0 -9223372036854775808");
}
