//! Keyboard keymap and modifier state: the compositor supplies a textual
//! keymap blob (with a trailing terminator byte) that is compiled into a
//! symbol table; modifier-changed messages update the live modifier
//! masks; key and enter messages name physical keys that are resolved
//! through a fixed evdev-to-protocol keycode offset.
//!
//! The compilation itself is the platform library's work and happens
//! outside this crate; this module owns the policy around it: exactly
//! `length - 1` bytes of the blob are compiled, a successful compilation
//! replaces the table and the derived state wholesale, and a failed one
//! is reported as a distinct error and leaves the previously active
//! table and modifier state fully intact.

use vstd::prelude::*;

use vstd::slice::slice_subrange;

verus! {

/// The fixed offset between the evdev keycodes on the wire and the
/// keycodes the symbol table is indexed by.
pub const KEYCODE_OFFSET: u32 = 8;

/// A keymap blob failed to compile.  The previously active state is
/// untouched when this is reported.
#[derive(PartialEq, Eq, Structural, Clone, Copy, Debug)]
pub struct KeyMapError;

impl KeyMapError {
    /// Diagnostic text for this error.
    pub fn message(&self) -> (text: &'static str)
        ensures
            text@ == "Error getting keymap"@,
    {
        "Error getting keymap"
    }
}

/// The live modifier masks and layout group, as last announced by the
/// compositor.
#[derive(PartialEq, Eq, Structural, Clone, Copy, Debug)]
pub struct Modifiers {
    pub depressed: u32,
    pub latched: u32,
    pub locked: u32,
    pub group: u32,
}

impl Modifiers {
    /// No modifier held, base layout group.
    pub open spec fn spec_none() -> Modifiers {
        Modifiers { depressed: 0, latched: 0, locked: 0, group: 0 }
    }
}

/// The keyboard's compiled-table bookkeeping and live modifier state.
///
/// The table itself lives with the platform library outside this crate;
/// here each successful compilation is counted as a new table
/// generation, so that the contracts pin down exactly when the active
/// table is replaced and when it is kept.
pub struct KeyboardState {
    generation: u32,
    mods: Modifiers,
}

impl KeyboardState {
    /// How many keymaps have been compiled successfully; zero means no
    /// table is active yet.
    pub closed spec fn spec_generation(self) -> u32 {
        self.generation
    }

    /// The live modifier masks.
    pub closed spec fn spec_mods(self) -> Modifiers {
        self.mods
    }

    /// Fresh state: no table compiled, no modifiers held.
    pub fn new() -> (state: KeyboardState)
        ensures
            state.spec_generation() == 0,
            state.spec_mods() == Modifiers::spec_none(),
    {
        KeyboardState { generation: 0, mods: Modifiers { depressed: 0, latched: 0, locked: 0, group: 0 } }
    }

    /// How many keymaps have been compiled successfully so far.
    pub fn keymap_generation(&self) -> (generation: u32)
        ensures
            generation == self.spec_generation(),
    {
        self.generation
    }

    /// The live modifier masks.
    pub fn modifiers(&self) -> (mods: Modifiers)
        ensures
            mods == self.spec_mods(),
    {
        self.mods
    }

    /// Whether a compiled table is active.
    pub fn has_keymap(&self) -> (active: bool)
        ensures
            active == (self.spec_generation() > 0),
    {
        self.generation > 0
    }

    /// Records the outcome of compiling a freshly supplied keymap blob.
    ///
    /// Success replaces the active table (a new generation) and resets
    /// the derived modifier state wholesale.  Failure is reported as
    /// [`KeyMapError`] and leaves the previously active table and
    /// modifier state completely intact — a stale table is never
    /// silently swapped for a partially constructed one.
    pub fn apply_keymap_compile(&mut self, compiled: bool) -> (outcome: Result<(), KeyMapError>)
        requires
            old(self).spec_generation() < u32::MAX,
        ensures
            compiled ==> {
                &&& outcome is Ok
                &&& final(self).spec_generation() == old(self).spec_generation() + 1
                &&& final(self).spec_mods() == Modifiers::spec_none()
            },
            !compiled ==> outcome == Result::<(), KeyMapError>::Err(KeyMapError) && *final(self)
                == *old(self),
    {
        if compiled {
            self.generation = self.generation + 1;
            self.mods = Modifiers { depressed: 0, latched: 0, locked: 0, group: 0 };
            Ok(())
        } else {
            Err(KeyMapError)
        }
    }

    /// Adopts the modifier masks of a modifiers-changed message.  This
    /// never recompiles anything: the active table stays as it is.
    pub fn handle_modifiers(&mut self, depressed: u32, latched: u32, locked: u32, group: u32)
        ensures
            final(self).spec_mods() == (Modifiers { depressed, latched, locked, group }),
            final(self).spec_generation() == old(self).spec_generation(),
    {
        self.mods = Modifiers { depressed, latched, locked, group };
    }

    /// Resolves a physical key of a key or enter message to the keycode
    /// the active symbol table is indexed by.  Resolution reads the
    /// table and the state; it alters neither.
    pub fn resolve_key(&self, key: u32) -> (code: u32)
        requires
            self.spec_generation() > 0,
            key <= u32::MAX - KEYCODE_OFFSET,
        ensures
            code == key + KEYCODE_OFFSET,
    {
        key + KEYCODE_OFFSET
    }

    /// Resolves every physical key of an enter message's held-keys list.
    /// Enter messages report which keys are held; they alter no state.
    pub fn resolve_held_keys(&self, keys: &Vec<u32>) -> (codes: Vec<u32>)
        requires
            self.spec_generation() > 0,
            forall|i: int| 0 <= i < keys@.len() ==> keys@[i] <= u32::MAX - KEYCODE_OFFSET,
        ensures
            codes@.len() == keys@.len(),
            forall|i: int| 0 <= i < keys@.len() ==> codes@[i] == keys@[i] + KEYCODE_OFFSET,
    {
        let mut codes: Vec<u32> = Vec::new();
        let n = keys.len();
        let mut i: usize = 0;
        while i < n
            invariant
                i <= n,
                n == keys@.len(),
                codes@.len() == i,
                forall|j: int| 0 <= j < keys@.len() ==> keys@[j] <= u32::MAX - KEYCODE_OFFSET,
                forall|j: int| 0 <= j < i ==> codes@[j] == keys@[j] + KEYCODE_OFFSET,
            decreases n - i,
        {
            codes.push(keys[i] + KEYCODE_OFFSET);
            i = i + 1;
        }
        codes
    }
}

/// The text of a keymap blob: everything up to, and not including, the
/// trailing terminator byte — exactly `length - 1` bytes are compiled.
pub fn keymap_text(buffer: &[u8]) -> (text: &[u8])
    requires
        buffer@.len() >= 1,
    ensures
        text@ == buffer@.subrange(0, buffer@.len() - 1),
{
    slice_subrange(buffer, 0, buffer.len() - 1)
}

/// The little-endian 32-bit value starting at element `4 * i` of a byte
/// sequence.
pub open spec fn spec_le_u32(bytes: Seq<u8>, i: int) -> u32 {
    (bytes[4 * i] + bytes[4 * i + 1] * 0x100 + bytes[4 * i + 2] * 0x10000 + bytes[4 * i + 3]
        * 0x1000000) as u32
}

/// Decodes the held-keys array of an enter message: a packed list of
/// little-endian 32-bit keycodes.
pub fn decode_keycodes(bytes: &[u8]) -> (keys: Vec<u32>)
    requires
        bytes@.len() % 4 == 0,
    ensures
        keys@.len() == bytes@.len() / 4,
        forall|i: int| 0 <= i < keys@.len() ==> keys@[i] == spec_le_u32(bytes@, i),
{
    let total = bytes.len();
    let count = total / 4;
    let mut keys: Vec<u32> = Vec::new();
    let mut i: usize = 0;
    while i < count
        invariant
            i <= count,
            count == bytes@.len() / 4,
            bytes@.len() % 4 == 0,
            bytes@.len() <= usize::MAX,
            keys@.len() == i,
            forall|j: int| 0 <= j < i ==> keys@[j] == spec_le_u32(bytes@, j),
        decreases count - i,
    {
        proof {
            assert(4 * (i as int) + 3 < bytes@.len()) by (nonlinear_arith)
                requires
                    (i as int) < bytes@.len() / 4,
                    bytes@.len() % 4 == 0,
            ;
        }
        let b0 = bytes[4 * i] as u32;
        let b1 = bytes[4 * i + 1] as u32;
        let b2 = bytes[4 * i + 2] as u32;
        let b3 = bytes[4 * i + 3] as u32;
        let value = b0 + b1 * 0x100 + b2 * 0x10000 + b3 * 0x1000000;
        keys.push(value);
        i = i + 1;
    }
    keys
}

} // verus!
