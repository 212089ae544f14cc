//! Touch event aggregation: partial per-contact messages — down, up,
//! motion, shape, orientation — update the record of the contact point
//! they name, identified by the stable id the compositor assigns, and a
//! global cancel flag covers the whole device.  The frame delimiter
//! finalizes all of it as one atomic snapshot and resets the
//! accumulator, which also evicts every per-point record so that
//! repeated touch use cannot accumulate stale entries.
//!
//! A point's record is created lazily by the first message naming its
//! id; ids are unique in the accumulator, and records stay in
//! first-contact order.
//!
//! Coordinates, contact-ellipse diameters and orientation are
//! fixed-point integers in 1/256ths, the protocol's wire resolution.

use vstd::prelude::*;

use crate::text::push_signed_decimal;
use crate::text::u64_decimal;

verus! {

/// Which kinds of update this contact point has seen since the last
/// frame delimiter.
#[derive(PartialEq, Eq, Structural, Clone, Copy, Debug)]
pub struct TouchPointMask {
    pub down: bool,
    pub up: bool,
    pub motion: bool,
    pub shape: bool,
    pub orientation: bool,
}

/// The accumulated state of one contact point; a field is meaningful
/// only where the corresponding mask flag is set.
#[derive(PartialEq, Eq, Structural, Clone, Copy, Debug)]
pub struct TouchPoint {
    /// The compositor's stable identifier for this contact.
    pub id: i32,
    pub mask: TouchPointMask,
    /// Fixed-point 1/256ths of a pixel.
    pub surface_x: i64,
    /// Fixed-point 1/256ths of a pixel.
    pub surface_y: i64,
    /// Major diameter of the contact ellipse, fixed-point 1/256ths.
    pub major: i64,
    /// Minor diameter of the contact ellipse, fixed-point 1/256ths.
    pub minor: i64,
    /// Orientation of the contact ellipse, fixed-point 1/256ths of a degree.
    pub orientation: i64,
}

/// One partial touch update, as decoded from the wire.
#[derive(PartialEq, Eq, Structural, Clone, Copy, Debug)]
pub enum TouchMsg {
    Down { id: i32, time: u32, serial: u32, surface_x: i64, surface_y: i64 },
    Up { id: i32 },
    Motion { id: i32, time: u32, surface_x: i64, surface_y: i64 },
    Cancel,
    Shape { id: i32, major: i64, minor: i64 },
    Orientation { id: i32, orientation: i64 },
    Frame,
}

/// A contact-point record as first created: nothing observed yet.
pub open spec fn spec_empty_point(id: i32) -> TouchPoint {
    TouchPoint {
        id,
        mask: TouchPointMask {
            down: false,
            up: false,
            motion: false,
            shape: false,
            orientation: false,
        },
        surface_x: 0,
        surface_y: 0,
        major: 0,
        minor: 0,
        orientation: 0,
    }
}

/// Whether some record carries this contact id.
pub open spec fn spec_has_point(points: Seq<TouchPoint>, id: i32) -> bool {
    exists|i: int| 0 <= i < points.len() && points[i].id == id
}

/// The index of the record carrying this contact id (unique when the
/// ids are unique).
pub open spec fn spec_point_index(points: Seq<TouchPoint>, id: i32) -> int {
    choose|i: int| 0 <= i < points.len() && points[i].id == id
}

/// Updates the record for `id` in place, or appends a fresh record for
/// it — transformed the same way — when none exists yet.
pub open spec fn spec_upsert(
    points: Seq<TouchPoint>,
    id: i32,
    f: spec_fn(TouchPoint) -> TouchPoint,
) -> Seq<TouchPoint> {
    if spec_has_point(points, id) {
        points.update(spec_point_index(points, id), f(points[spec_point_index(points, id)]))
    } else {
        points.push(f(spec_empty_point(id)))
    }
}

/// The point records after a down message for `id`.
pub open spec fn spec_points_down(
    points: Seq<TouchPoint>,
    id: i32,
    surface_x: i64,
    surface_y: i64,
) -> Seq<TouchPoint> {
    spec_upsert(
        points,
        id,
        (|p: TouchPoint|
            TouchPoint {
                mask: TouchPointMask { down: true, ..p.mask },
                surface_x,
                surface_y,
                ..p
            }),
    )
}

/// The point records after an up message for `id`.
pub open spec fn spec_points_up(points: Seq<TouchPoint>, id: i32) -> Seq<TouchPoint> {
    spec_upsert(
        points,
        id,
        (|p: TouchPoint| TouchPoint { mask: TouchPointMask { up: true, ..p.mask }, ..p }),
    )
}

/// The point records after a motion message for `id`.
pub open spec fn spec_points_motion(
    points: Seq<TouchPoint>,
    id: i32,
    surface_x: i64,
    surface_y: i64,
) -> Seq<TouchPoint> {
    spec_upsert(
        points,
        id,
        (|p: TouchPoint|
            TouchPoint {
                mask: TouchPointMask { motion: true, ..p.mask },
                surface_x,
                surface_y,
                ..p
            }),
    )
}

/// The point records after a shape message for `id`.
pub open spec fn spec_points_shape(
    points: Seq<TouchPoint>,
    id: i32,
    major: i64,
    minor: i64,
) -> Seq<TouchPoint> {
    spec_upsert(
        points,
        id,
        (|p: TouchPoint|
            TouchPoint { mask: TouchPointMask { shape: true, ..p.mask }, major, minor, ..p }),
    )
}

/// The point records after an orientation message for `id`.
pub open spec fn spec_points_orientation(
    points: Seq<TouchPoint>,
    id: i32,
    orientation: i64,
) -> Seq<TouchPoint> {
    spec_upsert(
        points,
        id,
        (|p: TouchPoint|
            TouchPoint {
                mask: TouchPointMask { orientation: true, ..p.mask },
                orientation,
                ..p
            }),
    )
}

/// The accumulating touch snapshot: the contact-point records of the
/// update being assembled, shared time/serial fields, and the global
/// cancel flag.
pub struct TouchEvent {
    cancel: bool,
    time: u32,
    serial: u32,
    points: Vec<TouchPoint>,
}

impl TouchEvent {
    /// Whether the compositor cancelled this touch sequence.
    pub closed spec fn spec_cancel(self) -> bool {
        self.cancel
    }

    pub closed spec fn spec_time(self) -> u32 {
        self.time
    }

    pub closed spec fn spec_serial(self) -> u32 {
        self.serial
    }

    /// The contact-point records, in first-contact order.
    pub closed spec fn spec_points(self) -> Seq<TouchPoint> {
        self.points@
    }

    /// Contact ids are unique among the records.
    pub open spec fn wf(self) -> bool {
        forall|i: int, j: int|
            0 <= i < j < self.spec_points().len() ==> self.spec_points()[i].id
                != self.spec_points()[j].id
    }

    /// Whether the accumulator is empty, as it is right after a frame
    /// delimiter: no records, no cancel, default shared fields.
    pub open spec fn spec_is_empty(self) -> bool {
        &&& self.spec_points().len() == 0
        &&& !self.spec_cancel()
        &&& self.spec_time() == 0
        &&& self.spec_serial() == 0
    }

    /// A fresh, empty accumulator.
    pub fn new() -> (e: TouchEvent)
        ensures
            e.wf(),
            e.spec_is_empty(),
    {
        TouchEvent { cancel: false, time: 0, serial: 0, points: Vec::new() }
    }

    /// How many contact-point records the accumulator holds.
    pub fn point_count(&self) -> (n: usize)
        ensures
            n == self.spec_points().len(),
    {
        self.points.len()
    }

    /// The record at one index, in first-contact order.
    pub fn point_at(&self, index: usize) -> (p: TouchPoint)
        requires
            index < self.spec_points().len(),
        ensures
            p == self.spec_points()[index as int],
    {
        self.points[index]
    }

    pub fn cancelled(&self) -> (c: bool)
        ensures
            c == self.spec_cancel(),
    {
        self.cancel
    }

    pub fn time(&self) -> (t: u32)
        ensures
            t == self.spec_time(),
    {
        self.time
    }

    pub fn serial(&self) -> (s: u32)
        ensures
            s == self.spec_serial(),
    {
        self.serial
    }

    /// The index of the record for `id`, created empty if none exists:
    /// contact records come to be lazily, on the first message that
    /// names their id.
    fn get_point(&mut self, id: i32) -> (index: usize)
        requires
            old(self).wf(),
        ensures
            final(self).wf(),
            final(self).spec_cancel() == old(self).spec_cancel(),
            final(self).spec_time() == old(self).spec_time(),
            final(self).spec_serial() == old(self).spec_serial(),
            index < final(self).spec_points().len(),
            final(self).spec_points()[index as int].id == id,
            spec_has_point(old(self).spec_points(), id) ==> *final(self) == *old(self) && index
                == spec_point_index(old(self).spec_points(), id),
            !spec_has_point(old(self).spec_points(), id) ==> final(self).spec_points() == old(
                self,
            ).spec_points().push(spec_empty_point(id)) && index == old(self).spec_points().len(),
    {
        let n = self.points.len();
        let mut i: usize = 0;
        while i < n
            invariant
                i <= n,
                *self == *old(self),
                self.wf(),
                n == self.points.len(),
                forall|j: int| 0 <= j < i ==> self.points@[j].id != id,
            decreases n - i,
        {
            if self.points[i].id == id {
                proof {
                    lemma_point_index_is(self.spec_points(), id, i as int);
                }
                return i;
            }
            i = i + 1;
        }
        let empty = TouchPoint {
            id,
            mask: TouchPointMask {
                down: false,
                up: false,
                motion: false,
                shape: false,
                orientation: false,
            },
            surface_x: 0,
            surface_y: 0,
            major: 0,
            minor: 0,
            orientation: 0,
        };
        self.points.push(empty);
        proof {
            assert(!spec_has_point(old(self).spec_points(), id));
            assert forall|a: int, b: int|
                0 <= a < b < self.spec_points().len() implies self.spec_points()[a].id
                != self.spec_points()[b].id by {
                if b == self.spec_points().len() - 1 {
                    assert(self.spec_points()[a] == old(self).spec_points()[a]);
                }
            }
        }
        n
    }

    /// Feeds one message: a partial update accumulates and yields
    /// nothing; the frame delimiter yields the finalized snapshot and
    /// resets the accumulator to empty, evicting every per-point record.
    pub fn apply(&mut self, msg: TouchMsg) -> (finalized: Option<TouchEvent>)
        requires
            old(self).wf(),
        ensures
            final(self).wf(),
            match msg {
                TouchMsg::Down { id, time, serial, surface_x, surface_y } => {
                    &&& finalized is None
                    &&& final(self).spec_points() == spec_points_down(
                        old(self).spec_points(),
                        id,
                        surface_x,
                        surface_y,
                    )
                    &&& final(self).spec_time() == time
                    &&& final(self).spec_serial() == serial
                    &&& final(self).spec_cancel() == old(self).spec_cancel()
                },
                TouchMsg::Up { id } => {
                    &&& finalized is None
                    &&& final(self).spec_points() == spec_points_up(old(self).spec_points(), id)
                    &&& final(self).spec_time() == old(self).spec_time()
                    &&& final(self).spec_serial() == old(self).spec_serial()
                    &&& final(self).spec_cancel() == old(self).spec_cancel()
                },
                TouchMsg::Motion { id, time, surface_x, surface_y } => {
                    &&& finalized is None
                    &&& final(self).spec_points() == spec_points_motion(
                        old(self).spec_points(),
                        id,
                        surface_x,
                        surface_y,
                    )
                    &&& final(self).spec_time() == time
                    &&& final(self).spec_serial() == old(self).spec_serial()
                    &&& final(self).spec_cancel() == old(self).spec_cancel()
                },
                TouchMsg::Cancel => {
                    &&& finalized is None
                    &&& final(self).spec_points() == old(self).spec_points()
                    &&& final(self).spec_time() == old(self).spec_time()
                    &&& final(self).spec_serial() == old(self).spec_serial()
                    &&& final(self).spec_cancel()
                },
                TouchMsg::Shape { id, major, minor } => {
                    &&& finalized is None
                    &&& final(self).spec_points() == spec_points_shape(
                        old(self).spec_points(),
                        id,
                        major,
                        minor,
                    )
                    &&& final(self).spec_time() == old(self).spec_time()
                    &&& final(self).spec_serial() == old(self).spec_serial()
                    &&& final(self).spec_cancel() == old(self).spec_cancel()
                },
                TouchMsg::Orientation { id, orientation } => {
                    &&& finalized is None
                    &&& final(self).spec_points() == spec_points_orientation(
                        old(self).spec_points(),
                        id,
                        orientation,
                    )
                    &&& final(self).spec_time() == old(self).spec_time()
                    &&& final(self).spec_serial() == old(self).spec_serial()
                    &&& final(self).spec_cancel() == old(self).spec_cancel()
                },
                TouchMsg::Frame => {
                    &&& finalized == Some(*old(self))
                    &&& final(self).spec_is_empty()
                },
            },
    {
        match msg {
            TouchMsg::Down { id, time, serial, surface_x, surface_y } => {
                self.handle_down(id, time, serial, surface_x, surface_y);
                None
            },
            TouchMsg::Up { id } => {
                self.handle_up(id);
                None
            },
            TouchMsg::Motion { id, time, surface_x, surface_y } => {
                self.handle_motion(id, time, surface_x, surface_y);
                None
            },
            TouchMsg::Cancel => {
                self.cancel = true;
                proof {
                    assert(self.spec_points() == old(self).spec_points());
                }
                None
            },
            TouchMsg::Shape { id, major, minor } => {
                self.handle_shape(id, major, minor);
                None
            },
            TouchMsg::Orientation { id, orientation } => {
                self.handle_orientation(id, orientation);
                None
            },
            TouchMsg::Frame => {
                let mut finalized = TouchEvent {
                    cancel: false,
                    time: 0,
                    serial: 0,
                    points: Vec::new(),
                };
                core::mem::swap(self, &mut finalized);
                Some(finalized)
            },
        }
    }

    /// Accumulates a down message: the point's record gets the down flag
    /// and the touch coordinates; the shared time and serial are updated.
    fn handle_down(&mut self, id: i32, time: u32, serial: u32, surface_x: i64, surface_y: i64)
        requires
            old(self).wf(),
        ensures
            final(self).wf(),
            final(self).spec_points() == spec_points_down(
                old(self).spec_points(),
                id,
                surface_x,
                surface_y,
            ),
            final(self).spec_time() == time,
            final(self).spec_serial() == serial,
            final(self).spec_cancel() == old(self).spec_cancel(),
    {
        let index = self.get_point(id);
        let ghost midstate = *self;
        let mut p = self.points[index];
        p.mask.down = true;
        p.surface_x = surface_x;
        p.surface_y = surface_y;
        self.points[index] = p;
        self.time = time;
        self.serial = serial;
        proof {
            lemma_ids_stay_unique(midstate.spec_points(), self.spec_points());
            assert(self.spec_points() =~= spec_points_down(
                old(self).spec_points(),
                id,
                surface_x,
                surface_y,
            ));
        }
    }

    /// Accumulates an up message: the point's record gets the up flag.
    fn handle_up(&mut self, id: i32)
        requires
            old(self).wf(),
        ensures
            final(self).wf(),
            final(self).spec_points() == spec_points_up(old(self).spec_points(), id),
            final(self).spec_time() == old(self).spec_time(),
            final(self).spec_serial() == old(self).spec_serial(),
            final(self).spec_cancel() == old(self).spec_cancel(),
    {
        let index = self.get_point(id);
        let ghost midstate = *self;
        let mut p = self.points[index];
        p.mask.up = true;
        self.points[index] = p;
        proof {
            lemma_ids_stay_unique(midstate.spec_points(), self.spec_points());
            assert(self.spec_points() =~= spec_points_up(old(self).spec_points(), id));
        }
    }

    /// Accumulates a motion message: the point's record gets the motion
    /// flag and the new coordinates; the shared time is updated.
    fn handle_motion(&mut self, id: i32, time: u32, surface_x: i64, surface_y: i64)
        requires
            old(self).wf(),
        ensures
            final(self).wf(),
            final(self).spec_points() == spec_points_motion(
                old(self).spec_points(),
                id,
                surface_x,
                surface_y,
            ),
            final(self).spec_time() == time,
            final(self).spec_serial() == old(self).spec_serial(),
            final(self).spec_cancel() == old(self).spec_cancel(),
    {
        let index = self.get_point(id);
        let ghost midstate = *self;
        let mut p = self.points[index];
        p.mask.motion = true;
        p.surface_x = surface_x;
        p.surface_y = surface_y;
        self.points[index] = p;
        self.time = time;
        proof {
            lemma_ids_stay_unique(midstate.spec_points(), self.spec_points());
            assert(self.spec_points() =~= spec_points_motion(
                old(self).spec_points(),
                id,
                surface_x,
                surface_y,
            ));
        }
    }

    /// Accumulates a shape message: the point's record gets the shape
    /// flag and the contact-ellipse diameters.
    fn handle_shape(&mut self, id: i32, major: i64, minor: i64)
        requires
            old(self).wf(),
        ensures
            final(self).wf(),
            final(self).spec_points() == spec_points_shape(
                old(self).spec_points(),
                id,
                major,
                minor,
            ),
            final(self).spec_time() == old(self).spec_time(),
            final(self).spec_serial() == old(self).spec_serial(),
            final(self).spec_cancel() == old(self).spec_cancel(),
    {
        let index = self.get_point(id);
        let ghost midstate = *self;
        let mut p = self.points[index];
        p.mask.shape = true;
        p.major = major;
        p.minor = minor;
        self.points[index] = p;
        proof {
            lemma_ids_stay_unique(midstate.spec_points(), self.spec_points());
            assert(self.spec_points() =~= spec_points_shape(
                old(self).spec_points(),
                id,
                major,
                minor,
            ));
        }
    }

    /// Accumulates an orientation message: the point's record gets the
    /// orientation flag and the ellipse orientation.
    fn handle_orientation(&mut self, id: i32, orientation: i64)
        requires
            old(self).wf(),
        ensures
            final(self).wf(),
            final(self).spec_points() == spec_points_orientation(
                old(self).spec_points(),
                id,
                orientation,
            ),
            final(self).spec_time() == old(self).spec_time(),
            final(self).spec_serial() == old(self).spec_serial(),
            final(self).spec_cancel() == old(self).spec_cancel(),
    {
        let index = self.get_point(id);
        let ghost midstate = *self;
        let mut p = self.points[index];
        p.mask.orientation = true;
        p.orientation = orientation;
        self.points[index] = p;
        proof {
            lemma_ids_stay_unique(midstate.spec_points(), self.spec_points());
            assert(self.spec_points() =~= spec_points_orientation(
                old(self).spec_points(),
                id,
                orientation,
            ));
        }
    }

    /// Diagnostic text for a finalized snapshot.  Presentation is a pure
    /// function of the snapshot; its only correctness obligation is that
    /// it cannot fail on any mask/field combination, which holds of
    /// every verified function.
    pub fn describe(&self) -> String {
        let mut out = String::new();
        out.append("touch event @ ");
        let time = u64_decimal(self.time as u64);
        out.append(time.as_str());
        out.append(":\n");
        if self.cancel {
            out.append("cancelled\n");
        }
        let n = self.points.len();
        let mut i: usize = 0;
        while i < n
            invariant
                i <= n,
                n == self.points.len(),
            decreases n - i,
        {
            let p = self.points[i];
            out.append("point ");
            push_signed_decimal(p.id as i64, &mut out);
            out.append(": ");
            if p.mask.down {
                out.append("down ");
                push_signed_decimal(p.surface_x, &mut out);
                out.append(",");
                push_signed_decimal(p.surface_y, &mut out);
                out.append(" ");
            }
            if p.mask.up {
                out.append("up ");
            }
            if p.mask.motion {
                out.append("motion ");
                push_signed_decimal(p.surface_x, &mut out);
                out.append(",");
                push_signed_decimal(p.surface_y, &mut out);
                out.append(" ");
            }
            if p.mask.shape {
                out.append("shape ");
                push_signed_decimal(p.major, &mut out);
                out.append("x");
                push_signed_decimal(p.minor, &mut out);
                out.append(" ");
            }
            if p.mask.orientation {
                out.append("orientation ");
                push_signed_decimal(p.orientation, &mut out);
                out.append(" ");
            }
            out.append("\n");
            i = i + 1;
        }
        out
    }
}

/// A record list that keeps every record's id keeps the ids unique.
proof fn lemma_ids_stay_unique(before: Seq<TouchPoint>, after: Seq<TouchPoint>)
    requires
        forall|a: int, b: int| 0 <= a < b < before.len() ==> before[a].id != before[b].id,
        after.len() == before.len(),
        forall|k: int| 0 <= k < before.len() ==> after[k].id == before[k].id,
    ensures
        forall|a: int, b: int| 0 <= a < b < after.len() ==> after[a].id != after[b].id,
{
}

/// With unique ids, an index holding `id` is the index `spec_point_index`
/// names.
proof fn lemma_point_index_is(points: Seq<TouchPoint>, id: i32, i: int)
    requires
        forall|a: int, b: int|
            0 <= a < b < points.len() ==> points[a].id != points[b].id,
        0 <= i < points.len(),
        points[i].id == id,
    ensures
        spec_has_point(points, id),
        spec_point_index(points, id) == i,
{
    assert(spec_has_point(points, id));
    let k = spec_point_index(points, id);
    assert(0 <= k < points.len() && points[k].id == id);
    if k < i {
        assert(points[k].id != points[i].id);
    } else if i < k {
        assert(points[i].id != points[k].id);
    }
}

} // verus!
