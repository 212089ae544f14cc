//! Input-capability negotiation: a seat announces which device kinds it
//! currently exposes as a capability bitmask, and the client keeps exactly
//! one live handler per asserted kind.
//!
//! Each capability-changed message is handled per device kind: a newly
//! asserted kind gets exactly one handler created, a newly dropped kind
//! has its handler released, and an unchanged kind is left alone — so
//! losing one capability never disturbs the handlers of the others.

use vstd::prelude::*;

verus! {

/// Bit assigned to the pointer capability in the seat's bitmask.
pub const POINTER_BIT: u32 = 1;

/// Bit assigned to the keyboard capability in the seat's bitmask.
pub const KEYBOARD_BIT: u32 = 2;

/// Bit assigned to the touch capability in the seat's bitmask.
pub const TOUCH_BIT: u32 = 4;

/// The set of device kinds a seat currently exposes.
#[derive(PartialEq, Eq, Structural, Clone, Copy, Debug)]
pub struct Capabilities {
    pub pointer: bool,
    pub keyboard: bool,
    pub touch: bool,
}

impl Capabilities {
    /// Decodes the wire bitmask: bit 0 is pointer, bit 1 keyboard,
    /// bit 2 touch.
    pub fn from_bits(bits: u32) -> (caps: Capabilities)
        ensures
            caps.pointer == (bits & POINTER_BIT != 0),
            caps.keyboard == (bits & KEYBOARD_BIT != 0),
            caps.touch == (bits & TOUCH_BIT != 0),
    {
        Capabilities {
            pointer: bits & POINTER_BIT != 0,
            keyboard: bits & KEYBOARD_BIT != 0,
            touch: bits & TOUCH_BIT != 0,
        }
    }
}

/// Which device handlers to create and which to release in response to
/// one capability change.  The flags for one kind are never both set.
#[derive(PartialEq, Eq, Structural, Clone, Copy, Debug)]
pub struct SeatActions {
    pub create_pointer: bool,
    pub destroy_pointer: bool,
    pub create_keyboard: bool,
    pub destroy_keyboard: bool,
    pub create_touch: bool,
    pub destroy_touch: bool,
}

/// The set of live per-device handlers, one flag per device kind.
#[derive(PartialEq, Eq, Structural, Clone, Copy, Debug)]
pub struct InputDeviceSet {
    pub pointer: bool,
    pub keyboard: bool,
    pub touch: bool,
}

/// The handler set after one capability-changed message: a handler lives
/// exactly for each currently asserted capability.
pub open spec fn spec_apply_capabilities(devices: InputDeviceSet, caps: Capabilities) -> InputDeviceSet {
    InputDeviceSet { pointer: caps.pointer, keyboard: caps.keyboard, touch: caps.touch }
}

/// The create/release actions due for one capability-changed message:
/// create where newly asserted, release where newly dropped.
pub open spec fn spec_capability_actions(devices: InputDeviceSet, caps: Capabilities) -> SeatActions {
    SeatActions {
        create_pointer: caps.pointer && !devices.pointer,
        destroy_pointer: !caps.pointer && devices.pointer,
        create_keyboard: caps.keyboard && !devices.keyboard,
        destroy_keyboard: !caps.keyboard && devices.keyboard,
        create_touch: caps.touch && !devices.touch,
        destroy_touch: !caps.touch && devices.touch,
    }
}

/// The handler set after a whole sequence of capability-changed messages,
/// processed in order.
pub open spec fn spec_run_capabilities(devices: InputDeviceSet, messages: Seq<Capabilities>) -> InputDeviceSet
    decreases messages.len(),
{
    if messages.len() == 0 {
        devices
    } else {
        spec_run_capabilities(spec_apply_capabilities(devices, messages[0]), messages.drop_first())
    }
}

impl InputDeviceSet {
    /// A fresh seat starts with no live handlers.
    pub fn new() -> (devices: InputDeviceSet)
        ensures
            devices == (InputDeviceSet { pointer: false, keyboard: false, touch: false }),
    {
        InputDeviceSet { pointer: false, keyboard: false, touch: false }
    }

    /// Processes one capability-changed message, computed per device kind:
    /// afterwards a handler lives exactly for each asserted capability,
    /// and the returned actions are exactly the per-kind differences.
    pub fn apply_capabilities(&mut self, caps: Capabilities) -> (actions: SeatActions)
        ensures
            *final(self) == spec_apply_capabilities(*old(self), caps),
            actions == spec_capability_actions(*old(self), caps),
    {
        let actions = SeatActions {
            create_pointer: caps.pointer && !self.pointer,
            destroy_pointer: !caps.pointer && self.pointer,
            create_keyboard: caps.keyboard && !self.keyboard,
            destroy_keyboard: !caps.keyboard && self.keyboard,
            create_touch: caps.touch && !self.touch,
            destroy_touch: !caps.touch && self.touch,
        };
        self.pointer = caps.pointer;
        self.keyboard = caps.keyboard;
        self.touch = caps.touch;
        actions
    }
}

/// After any sequence of capability-changed messages, the set of live
/// device handlers equals exactly the most recently asserted capability
/// set, whatever handlers existed before.
pub proof fn lemma_handlers_track_capabilities(
    devices: InputDeviceSet,
    messages: Seq<Capabilities>,
)
    requires
        messages.len() > 0,
    ensures
        spec_run_capabilities(devices, messages) == (InputDeviceSet {
            pointer: messages.last().pointer,
            keyboard: messages.last().keyboard,
            touch: messages.last().touch,
        }),
    decreases messages.len(),
{
    if messages.len() == 1 {
        reveal_with_fuel(spec_run_capabilities, 2);
    } else {
        lemma_handlers_track_capabilities(
            spec_apply_capabilities(devices, messages[0]),
            messages.drop_first(),
        );
        assert(messages.drop_first().last() == messages.last());
    }
}

/// Capability handling is idempotent: a repeated identical mask leaves the
/// handler set as it is and asks for no creation and no release.
pub proof fn lemma_capabilities_idempotent(devices: InputDeviceSet, caps: Capabilities)
    ensures
        spec_apply_capabilities(spec_apply_capabilities(devices, caps), caps)
            == spec_apply_capabilities(devices, caps),
        spec_capability_actions(spec_apply_capabilities(devices, caps), caps) == (SeatActions {
            create_pointer: false,
            destroy_pointer: false,
            create_keyboard: false,
            destroy_keyboard: false,
            create_touch: false,
            destroy_touch: false,
        }),
{
}

} // verus!
