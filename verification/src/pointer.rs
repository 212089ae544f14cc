//! Pointer event aggregation: many partial messages — enter, leave,
//! motion, button, axis — each fill some fields of an in-progress
//! snapshot and mark them present; the frame delimiter finalizes the
//! snapshot as one atomic update and resets the accumulator.
//!
//! Nothing is acted on before the delimiter, and a field whose presence
//! flag is unset is meaningless even though it holds a default value.
//!
//! Coordinates and axis values are fixed-point integers in 1/256ths of a
//! pixel, the protocol's own wire resolution.

use vstd::prelude::*;

use crate::text::push_signed_decimal;
use crate::text::u64_decimal;

verus! {

/// A scroll axis of the pointer.
#[derive(PartialEq, Eq, Structural, Clone, Copy, Debug)]
pub enum PointerAxis {
    VerticalScroll,
    HorizontalScroll,
}

/// Which kinds of partial update have been seen since the last frame
/// delimiter: one flag per message kind.
#[derive(PartialEq, Eq, Structural, Clone, Copy, Debug)]
pub struct PointerMask {
    pub enter: bool,
    pub leave: bool,
    pub motion: bool,
    pub button: bool,
    pub axis: bool,
    pub axis_source: bool,
    pub axis_stop: bool,
    pub axis_discrete: bool,
}

impl PointerMask {
    /// The mask with nothing observed.
    pub open spec fn spec_empty() -> PointerMask {
        PointerMask {
            enter: false,
            leave: false,
            motion: false,
            button: false,
            axis: false,
            axis_source: false,
            axis_stop: false,
            axis_discrete: false,
        }
    }

    /// Whether any axis-family message has been observed.
    pub open spec fn spec_any_axis(self) -> bool {
        self.axis || self.axis_source || self.axis_stop || self.axis_discrete
    }

    /// Whether any axis-family message has been observed.
    pub fn any_axis(&self) -> (any: bool)
        ensures
            any == self.spec_any_axis(),
    {
        self.axis || self.axis_source || self.axis_stop || self.axis_discrete
    }
}

/// Per-axis accumulated fields; meaningful only where `valid` is set.
#[derive(PartialEq, Eq, Structural, Clone, Copy, Debug)]
pub struct AxisFields {
    /// Whether this axis took part in the current update.
    pub valid: bool,
    /// Scroll amount, fixed-point 1/256ths.
    pub value: i64,
    /// Discrete scroll steps.
    pub discrete: i32,
}

impl AxisFields {
    pub open spec fn spec_empty() -> AxisFields {
        AxisFields { valid: false, value: 0, discrete: 0 }
    }
}

/// One partial pointer update, as decoded from the wire.
#[derive(PartialEq, Eq, Structural, Clone, Copy, Debug)]
pub enum PointerMsg {
    Enter { serial: u32, surface_x: i64, surface_y: i64 },
    Leave { serial: u32 },
    Motion { time: u32, surface_x: i64, surface_y: i64 },
    Button { serial: u32, time: u32, button: u32, state: u32 },
    Axis { time: u32, axis: PointerAxis, value: i64 },
    AxisSource { axis_source: u32 },
    AxisStop { time: u32, axis: PointerAxis },
    AxisDiscrete { axis: PointerAxis, discrete: i32 },
    Frame,
}

/// The accumulating pointer snapshot: the fields of the update being
/// assembled, plus the mask saying which of them are meaningful.
#[derive(PartialEq, Eq, Structural, Clone, Copy, Debug)]
pub struct PointerEvent {
    pub event_mask: PointerMask,
    /// Fixed-point 1/256ths of a pixel.
    pub surface_x: i64,
    /// Fixed-point 1/256ths of a pixel.
    pub surface_y: i64,
    pub button: u32,
    /// Raw button state: pressed or released.
    pub state: u32,
    pub time: u32,
    pub serial: u32,
    pub vertical: AxisFields,
    pub horizontal: AxisFields,
    /// Raw axis source of the update.
    pub axis_source: u32,
}

/// The accumulator's per-axis fields after one axis-family message.
pub open spec fn spec_axis_update(e: PointerEvent, axis: PointerAxis, fields: AxisFields) -> PointerEvent {
    match axis {
        PointerAxis::VerticalScroll => PointerEvent { vertical: fields, ..e },
        PointerAxis::HorizontalScroll => PointerEvent { horizontal: fields, ..e },
    }
}

/// The accumulated per-axis fields the message refers to.
pub open spec fn spec_axis_fields(e: PointerEvent, axis: PointerAxis) -> AxisFields {
    match axis {
        PointerAxis::VerticalScroll => e.vertical,
        PointerAxis::HorizontalScroll => e.horizontal,
    }
}

/// The accumulator after one partial update (any message but the frame
/// delimiter): the message's fields are stored, its presence flag set,
/// everything else kept.
pub open spec fn spec_accumulate(e: PointerEvent, msg: PointerMsg) -> PointerEvent {
    match msg {
        PointerMsg::Enter { serial, surface_x, surface_y } => PointerEvent {
            event_mask: PointerMask { enter: true, ..e.event_mask },
            serial,
            surface_x,
            surface_y,
            ..e
        },
        PointerMsg::Leave { serial } => PointerEvent {
            event_mask: PointerMask { leave: true, ..e.event_mask },
            serial,
            ..e
        },
        PointerMsg::Motion { time, surface_x, surface_y } => PointerEvent {
            event_mask: PointerMask { motion: true, ..e.event_mask },
            time,
            surface_x,
            surface_y,
            ..e
        },
        PointerMsg::Button { serial, time, button, state } => PointerEvent {
            event_mask: PointerMask { button: true, ..e.event_mask },
            serial,
            time,
            button,
            state,
            ..e
        },
        PointerMsg::Axis { time, axis, value } => spec_axis_update(
            PointerEvent { event_mask: PointerMask { axis: true, ..e.event_mask }, time, ..e },
            axis,
            AxisFields { valid: true, value, ..spec_axis_fields(e, axis) },
        ),
        PointerMsg::AxisSource { axis_source } => PointerEvent {
            event_mask: PointerMask { axis_source: true, ..e.event_mask },
            axis_source,
            ..e
        },
        PointerMsg::AxisStop { time, axis } => spec_axis_update(
            PointerEvent {
                event_mask: PointerMask { axis_stop: true, ..e.event_mask },
                time,
                ..e
            },
            axis,
            AxisFields { valid: true, ..spec_axis_fields(e, axis) },
        ),
        PointerMsg::AxisDiscrete { axis, discrete } => spec_axis_update(
            PointerEvent { event_mask: PointerMask { axis_discrete: true, ..e.event_mask }, ..e },
            axis,
            AxisFields { valid: true, discrete, ..spec_axis_fields(e, axis) },
        ),
        PointerMsg::Frame => e,
    }
}

impl PointerEvent {
    /// The empty accumulator: no presence flags, default fields.
    pub open spec fn spec_empty() -> PointerEvent {
        PointerEvent {
            event_mask: PointerMask::spec_empty(),
            surface_x: 0,
            surface_y: 0,
            button: 0,
            state: 0,
            time: 0,
            serial: 0,
            vertical: AxisFields::spec_empty(),
            horizontal: AxisFields::spec_empty(),
            axis_source: 0,
        }
    }

    /// A fresh, empty accumulator.
    pub fn new() -> (e: PointerEvent)
        ensures
            e == PointerEvent::spec_empty(),
    {
        PointerEvent {
            event_mask: PointerMask {
                enter: false,
                leave: false,
                motion: false,
                button: false,
                axis: false,
                axis_source: false,
                axis_stop: false,
                axis_discrete: false,
            },
            surface_x: 0,
            surface_y: 0,
            button: 0,
            state: 0,
            time: 0,
            serial: 0,
            vertical: AxisFields { valid: false, value: 0, discrete: 0 },
            horizontal: AxisFields { valid: false, value: 0, discrete: 0 },
            axis_source: 0,
        }
    }

    /// Feeds one message: a partial update accumulates and yields
    /// nothing; the frame delimiter yields the finalized snapshot and
    /// resets the accumulator to empty.
    #[verifier::rlimit(50)]
    pub fn apply(&mut self, msg: PointerMsg) -> (finalized: Option<PointerEvent>)
        ensures
            msg is Frame ==> finalized == Some(*old(self)) && *final(self)
                == PointerEvent::spec_empty(),
            !(msg is Frame) ==> finalized is None && *final(self) == spec_accumulate(
                *old(self),
                msg,
            ),
    {
        match msg {
            PointerMsg::Enter { serial, surface_x, surface_y } => {
                self.event_mask.enter = true;
                self.serial = serial;
                self.surface_x = surface_x;
                self.surface_y = surface_y;
                None
            },
            PointerMsg::Leave { serial } => {
                self.event_mask.leave = true;
                self.serial = serial;
                None
            },
            PointerMsg::Motion { time, surface_x, surface_y } => {
                self.event_mask.motion = true;
                self.time = time;
                self.surface_x = surface_x;
                self.surface_y = surface_y;
                None
            },
            PointerMsg::Button { serial, time, button, state } => {
                self.event_mask.button = true;
                self.serial = serial;
                self.time = time;
                self.button = button;
                self.state = state;
                None
            },
            PointerMsg::Axis { time, axis, value } => {
                self.event_mask.axis = true;
                self.time = time;
                match axis {
                    PointerAxis::VerticalScroll => {
                        self.vertical.valid = true;
                        self.vertical.value = value;
                    },
                    PointerAxis::HorizontalScroll => {
                        self.horizontal.valid = true;
                        self.horizontal.value = value;
                    },
                }
                None
            },
            PointerMsg::AxisSource { axis_source } => {
                self.event_mask.axis_source = true;
                self.axis_source = axis_source;
                None
            },
            PointerMsg::AxisStop { time, axis } => {
                self.event_mask.axis_stop = true;
                self.time = time;
                match axis {
                    PointerAxis::VerticalScroll => {
                        self.vertical.valid = true;
                    },
                    PointerAxis::HorizontalScroll => {
                        self.horizontal.valid = true;
                    },
                }
                None
            },
            PointerMsg::AxisDiscrete { axis, discrete } => {
                self.event_mask.axis_discrete = true;
                match axis {
                    PointerAxis::VerticalScroll => {
                        self.vertical.valid = true;
                        self.vertical.discrete = discrete;
                    },
                    PointerAxis::HorizontalScroll => {
                        self.horizontal.valid = true;
                        self.horizontal.discrete = discrete;
                    },
                }
                None
            },
            PointerMsg::Frame => {
                let finalized = *self;
                *self = PointerEvent::new();
                Some(finalized)
            },
        }
    }

    /// Diagnostic text for a finalized snapshot.  Presentation is a pure
    /// function of the snapshot; its only correctness obligation is that
    /// it cannot fail on any mask/field combination, which holds of every
    /// verified function.
    pub fn describe(&self) -> String {
        let mut out = String::new();
        out.append("pointer frame @ ");
        let time = u64_decimal(self.time as u64);
        out.append(time.as_str());
        out.append(": ");
        if self.event_mask.enter {
            out.append("entered ");
            push_signed_decimal(self.surface_x, &mut out);
            out.append(", ");
            push_signed_decimal(self.surface_y, &mut out);
            out.append(" ");
        }
        if self.event_mask.leave {
            out.append("leave");
        }
        if self.event_mask.motion {
            out.append("motion ");
            push_signed_decimal(self.surface_x, &mut out);
            out.append(", ");
            push_signed_decimal(self.surface_y, &mut out);
        }
        if self.event_mask.button {
            out.append("button ");
            let button = u64_decimal(self.button as u64);
            out.append(button.as_str());
            out.append(", ");
            if self.state == 0 {
                out.append("released");
            } else {
                out.append("pressed");
            }
        }
        if self.event_mask.any_axis() {
            self.describe_axis(&mut out, PointerAxis::VerticalScroll);
            self.describe_axis(&mut out, PointerAxis::HorizontalScroll);
        }
        out
    }

    /// Diagnostic text for one axis of a finalized snapshot.
    fn describe_axis(&self, out: &mut String, axis: PointerAxis)
    {
        let fields = match axis {
            PointerAxis::VerticalScroll => &self.vertical,
            PointerAxis::HorizontalScroll => &self.horizontal,
        };
        if !fields.valid {
            return ;
        }
        match axis {
            PointerAxis::VerticalScroll => out.append("vertical axis "),
            PointerAxis::HorizontalScroll => out.append("horizontal axis "),
        }
        if self.event_mask.axis {
            out.append("value ");
            push_signed_decimal(fields.value, out);
            out.append(" ");
        }
        if self.event_mask.axis_discrete {
            out.append("discrete ");
            push_signed_decimal(fields.discrete as i64, out);
            out.append(" ");
        }
        if self.event_mask.axis_source {
            out.append("via ");
            out.append(axis_source_name(self.axis_source));
            out.append(" ");
        }
        if self.event_mask.axis_stop {
            out.append("(stopped) ");
        }
    }
}

/// The displayed name of a raw axis-source value.
pub fn axis_source_name(source: u32) -> (name: &'static str)
    ensures
        source == 0 ==> name@ == "wheel"@,
        source == 1 ==> name@ == "finger"@,
        source == 2 ==> name@ == "continuous"@,
        source == 3 ==> name@ == "wheel tilt"@,
        source > 3 ==> name@ == "unknown source"@,
{
    match source {
        0 => "wheel",
        1 => "finger",
        2 => "continuous",
        3 => "wheel tilt",
        _ => "unknown source",
    }
}

} // verus!
