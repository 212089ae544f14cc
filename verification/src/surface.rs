//! Surface lifecycle: the configure → acknowledge → first-commit handshake,
//! resize reconfiguration, peer-initiated close, and frame pacing.
//!
//! The controller never performs protocol side effects itself: each handler
//! returns a [`SurfaceEffects`] record, and the caller performs its parts in
//! field order — acknowledge first, then re-arm the frame signal, then
//! attach-and-commit.  That order is what the protocol demands: an
//! acknowledgement must precede the commit for the configure it answers,
//! and the next frame signal is requested before the (possibly slow) draw.

use vstd::prelude::*;

use crate::buffer::Buffer;
use crate::buffer::BufferPhase;
use crate::painter::Painter;
use crate::painter::advance_milliunits;
use crate::painter::checker_color;

verus! {

/// Default surface width, used until the compositor proposes a geometry
/// and again whenever it leaves the choice to the client.
pub const WIDTH: usize = 600;

/// Default surface height.
pub const HEIGHT: usize = 400;

/// The window-management events the controller reacts to.  All other
/// toplevel events leave the state untouched and are not delivered.
#[derive(PartialEq, Eq, Structural, Clone, Copy, Debug)]
pub enum ToplevelEvent {
    /// The compositor proposes a geometry; zero for either side means
    /// "you choose".
    Configure { width: usize, height: usize },
    /// The peer asks the client to close the surface.
    Close,
}

/// The protocol side effects one handler call asks for, to be performed
/// in field order: acknowledge, then request the next frame signal, then
/// attach the painted buffer and commit.
pub struct SurfaceEffects {
    /// Serial to acknowledge, exactly the one received, exactly once.
    pub ack_serial: Option<u32>,
    /// Whether to request the next frame-completion signal.
    pub rearm_frame: bool,
    /// A freshly painted buffer to attach and commit.
    pub commit: Option<Buffer>,
}

/// The geometry adopted from a toplevel configure: the proposed one, or
/// the default when the compositor leaves either side to the client.
pub open spec fn effective_geometry(width: usize, height: usize) -> (usize, usize) {
    if width == 0 || height == 0 {
        (WIDTH, HEIGHT)
    } else {
        (width, height)
    }
}

/// The default geometry's byte length fits comfortably in a `usize`.
proof fn lemma_default_geometry_fits()
    ensures
        WIDTH * HEIGHT * 4 <= usize::MAX,
{
    assert(WIDTH * HEIGHT * 4 == 960000) by (nonlinear_arith);
}

/// Surface state owned by the lifecycle controller.
pub struct State {
    width: usize,
    height: usize,
    asked_to_close: bool,
    has_drawn: bool,
    frame_pending: bool,
    painter: Painter,
}

impl State {
    pub closed spec fn spec_width(self) -> usize {
        self.width
    }

    pub closed spec fn spec_height(self) -> usize {
        self.height
    }

    pub closed spec fn spec_asked_to_close(self) -> bool {
        self.asked_to_close
    }

    pub closed spec fn spec_has_drawn(self) -> bool {
        self.has_drawn
    }

    /// Whether a frame-completion request is outstanding; there is never
    /// more than one.
    pub closed spec fn spec_frame_pending(self) -> bool {
        self.frame_pending
    }

    pub closed spec fn spec_painter(self) -> Painter {
        self.painter
    }

    /// The geometry is small enough that a buffer's byte length fits in a
    /// `usize`.
    pub open spec fn wf(self) -> bool {
        self.spec_width() * self.spec_height() * 4 <= usize::MAX
    }

    /// A fresh controller: default geometry, nothing drawn, not closed.
    /// The setup that creates the surface also requests the first frame
    /// signal before any message can be dispatched, so a fresh controller
    /// already has that one request outstanding.
    pub fn new() -> (state: State)
        ensures
            state.wf(),
            state.spec_width() == WIDTH,
            state.spec_height() == HEIGHT,
            !state.spec_asked_to_close(),
            !state.spec_has_drawn(),
            state.spec_frame_pending(),
            !state.spec_painter().spec_has_baseline(),
            state.spec_painter().spec_offset_milliunits() == 0,
    {
        proof {
            lemma_default_geometry_fits();
        }
        State {
            width: WIDTH,
            height: HEIGHT,
            asked_to_close: false,
            has_drawn: false,
            frame_pending: true,
            painter: Painter::new(),
        }
    }

    /// Whether the peer has asked the client to close the surface.
    pub fn is_closed(&self) -> (closed_flag: bool)
        ensures
            closed_flag == self.spec_asked_to_close(),
    {
        self.asked_to_close
    }

    /// Adopts a proposed geometry, falling back to the default when the
    /// compositor leaves either side to the client.
    fn set_geometry(&mut self, width: usize, height: usize)
        requires
            width * height * 4 <= usize::MAX,
        ensures
            final(self).wf(),
            (final(self).spec_width(), final(self).spec_height()) == effective_geometry(
                width,
                height,
            ),
            final(self).spec_asked_to_close() == old(self).spec_asked_to_close(),
            final(self).spec_has_drawn() == old(self).spec_has_drawn(),
            final(self).spec_frame_pending() == old(self).spec_frame_pending(),
            final(self).spec_painter() == old(self).spec_painter(),
    {
        if width == 0 || height == 0 {
            proof {
                lemma_default_geometry_fits();
            }
            self.width = WIDTH;
            self.height = HEIGHT;
        } else {
            self.width = width;
            self.height = height;
        }
    }

    /// Paints one fresh buffer of the surface's current geometry with the
    /// painter's current pattern phase.
    pub fn draw(&self) -> (buffer: Buffer)
        requires
            self.wf(),
        ensures
            buffer.wf(),
            buffer.spec_width() == self.spec_width(),
            buffer.spec_height() == self.spec_height(),
            buffer.spec_phase() == BufferPhase::Writable,
            buffer.spec_byte_len() == self.spec_width() * self.spec_height() * 4,
            forall|x: int, y: int|
                0 <= x < self.spec_width() && 0 <= y < self.spec_height()
                    ==> buffer.spec_pixels()[y * self.spec_width() + x] == checker_color(
                        x,
                        y,
                        self.spec_painter().spec_draw_offset() as int,
                    ),
    {
        proof {
            assert(self.width * self.height * 4 == self.height * (4 * self.width))
                by (nonlinear_arith);
        }
        let region_size = self.width * self.height * 4;
        let mut buffer = Buffer::new(region_size, self.width, self.height);
        self.painter.draw(&mut buffer);
        buffer
    }

    /// Reacts to a window-management event: a configure adopts the
    /// proposed geometry (it takes effect at the next redraw, it forces
    /// none), a close request marks the surface closed and stops all
    /// further redraws and frame requests.
    pub fn handle_toplevel(&mut self, event: ToplevelEvent)
        requires
            old(self).wf(),
            event matches ToplevelEvent::Configure { width, height } ==> width * height * 4
                <= usize::MAX,
        ensures
            final(self).wf(),
            final(self).spec_has_drawn() == old(self).spec_has_drawn(),
            final(self).spec_frame_pending() == old(self).spec_frame_pending(),
            final(self).spec_painter() == old(self).spec_painter(),
            match event {
                ToplevelEvent::Configure { width, height } => {
                    &&& (final(self).spec_width(), final(self).spec_height())
                        == effective_geometry(width, height)
                    &&& final(self).spec_asked_to_close() == old(self).spec_asked_to_close()
                },
                ToplevelEvent::Close => {
                    &&& final(self).spec_width() == old(self).spec_width()
                    &&& final(self).spec_height() == old(self).spec_height()
                    &&& final(self).spec_asked_to_close()
                },
            },
    {
        match event {
            ToplevelEvent::Configure { width, height } => {
                self.set_geometry(width, height);
            },
            ToplevelEvent::Close => {
                self.asked_to_close = true;
            },
        }
    }

    /// Reacts to the compositor's surface configure: acknowledges exactly
    /// the received serial, and on the very first configure — and only
    /// then — also paints and commits the first buffer, after the
    /// acknowledgement.
    pub fn handle_configure(&mut self, serial: u32) -> (effects: SurfaceEffects)
        requires
            old(self).wf(),
        ensures
            final(self).wf(),
            *final(self) == spec_after_configure(*old(self), serial),
            effects.ack_serial == Some(serial),
            !effects.rearm_frame,
            effects.commit is Some <==> spec_commits_on_configure(*old(self)),
            effects.commit matches Some(buffer) ==> {
                &&& buffer.wf()
                &&& buffer.spec_width() == old(self).spec_width()
                &&& buffer.spec_height() == old(self).spec_height()
                &&& buffer.spec_phase() == BufferPhase::Writable
                &&& forall|x: int, y: int|
                    0 <= x < buffer.spec_width() && 0 <= y < buffer.spec_height()
                        ==> buffer.spec_pixels()[y * buffer.spec_width() + x] == checker_color(
                            x,
                            y,
                            old(self).spec_painter().spec_draw_offset() as int,
                        )
            },
            final(self).spec_has_drawn() == (old(self).spec_has_drawn()
                || spec_commits_on_configure(*old(self))),
            final(self).spec_width() == old(self).spec_width(),
            final(self).spec_height() == old(self).spec_height(),
            final(self).spec_asked_to_close() == old(self).spec_asked_to_close(),
            final(self).spec_frame_pending() == old(self).spec_frame_pending(),
            final(self).spec_painter() == old(self).spec_painter(),
    {
        let commit = if !self.has_drawn && !self.asked_to_close {
            let buffer = self.draw();
            self.has_drawn = true;
            Some(buffer)
        } else {
            None
        };
        SurfaceEffects { ack_serial: Some(serial), rearm_frame: false, commit }
    }

    /// Reacts to a frame-completion signal: unless the surface is closed,
    /// re-arms the next frame request before drawing, advances the
    /// animation clock by the signal's timestamp, and paints and commits
    /// the next buffer.  After a close request nothing further is drawn
    /// or requested.
    pub fn handle_frame_callback(&mut self, time: u32) -> (effects: SurfaceEffects)
        requires
            old(self).wf(),
            old(self).spec_frame_pending(),
            old(self).spec_painter().spec_has_baseline() ==> time >= old(
                self,
            ).spec_painter().spec_last_frame(),
        ensures
            final(self).wf(),
            final(self).spec_width() == old(self).spec_width(),
            final(self).spec_height() == old(self).spec_height(),
            final(self).spec_asked_to_close() == old(self).spec_asked_to_close(),
            final(self).spec_has_drawn() == old(self).spec_has_drawn(),
            final(self).spec_frame_pending() == !old(self).spec_asked_to_close(),
            effects.ack_serial is None,
            effects.rearm_frame == !old(self).spec_asked_to_close(),
            effects.commit is Some <==> !old(self).spec_asked_to_close(),
            old(self).spec_asked_to_close() ==> final(self).spec_painter() == old(
                self,
            ).spec_painter(),
            !old(self).spec_asked_to_close() ==> {
                &&& final(self).spec_painter().spec_has_baseline()
                &&& final(self).spec_painter().spec_last_frame() == time
                &&& !old(self).spec_painter().spec_has_baseline()
                    ==> final(self).spec_painter().spec_offset_milliunits() == old(
                        self,
                    ).spec_painter().spec_offset_milliunits()
                &&& old(self).spec_painter().spec_has_baseline()
                    ==> final(self).spec_painter().spec_offset_milliunits() == advance_milliunits(
                        old(self).spec_painter().spec_offset_milliunits(),
                        (time - old(self).spec_painter().spec_last_frame()) as u32,
                    )
            },
            effects.commit matches Some(buffer) ==> {
                &&& buffer.wf()
                &&& buffer.spec_width() == old(self).spec_width()
                &&& buffer.spec_height() == old(self).spec_height()
                &&& buffer.spec_phase() == BufferPhase::Writable
                &&& forall|x: int, y: int|
                    0 <= x < buffer.spec_width() && 0 <= y < buffer.spec_height()
                        ==> buffer.spec_pixels()[y * buffer.spec_width() + x] == checker_color(
                            x,
                            y,
                            final(self).spec_painter().spec_draw_offset() as int,
                        )
            },
    {
        if self.asked_to_close {
            self.frame_pending = false;
            SurfaceEffects { ack_serial: None, rearm_frame: false, commit: None }
        } else {
            self.frame_pending = true;
            self.painter.update_time(time);
            let buffer = self.draw();
            SurfaceEffects { ack_serial: None, rearm_frame: true, commit: Some(buffer) }
        }
    }
}

/// Whether a configure makes the controller paint and commit: only the
/// very first configure of a surface that has not been closed.
pub open spec fn spec_commits_on_configure(s: State) -> bool {
    !s.spec_has_drawn() && !s.spec_asked_to_close()
}

/// The controller state after one configure: identical except that the
/// first commit, once emitted, is recorded.
pub closed spec fn spec_after_configure(s: State, serial: u32) -> State {
    State { has_drawn: s.has_drawn || spec_commits_on_configure(s), ..s }
}

/// The controller state after a sequence of configures, in receipt order.
pub closed spec fn spec_after_configures(s: State, serials: Seq<u32>) -> State
    decreases serials.len(),
{
    if serials.len() == 0 {
        s
    } else {
        spec_after_configures(spec_after_configure(s, serials[0]), serials.drop_first())
    }
}

/// Over any sequence of configures delivered to a fresh surface, the
/// controller commits exactly on the first one; together with the
/// per-call contract of [`State::handle_configure`] — each call
/// acknowledges exactly its own serial, and its acknowledgement is
/// performed before its commit — the first commit therefore happens
/// directly after the very first acknowledgement, and every serial is
/// acknowledged exactly once, in receipt order.
pub proof fn lemma_first_commit_on_first_configure(s: State, serials: Seq<u32>)
    requires
        !s.spec_has_drawn(),
        !s.spec_asked_to_close(),
    ensures
        forall|i: int|
            0 <= i < serials.len()
                ==> (spec_commits_on_configure(spec_after_configures(s, serials.take(i))) <==> i
                == 0),
{
    assert forall|i: int| 0 <= i < serials.len() implies (spec_commits_on_configure(
        spec_after_configures(s, serials.take(i)),
    ) <==> i == 0) by {
        lemma_configures_preserve_drawn(s, serials.take(i));
        if i == 0 {
            assert(serials.take(0) =~= Seq::<u32>::empty());
        }
    }
}

/// After at least one configure of a fresh surface, the first commit has
/// been recorded, and a close request never arises from a configure.
proof fn lemma_configures_preserve_drawn(s: State, serials: Seq<u32>)
    ensures
        spec_after_configures(s, serials).spec_asked_to_close() == s.spec_asked_to_close(),
        serials.len() == 0 ==> spec_after_configures(s, serials) == s,
        serials.len() > 0 && !s.spec_asked_to_close() ==> spec_after_configures(
            s,
            serials,
        ).spec_has_drawn(),
        s.spec_has_drawn() ==> spec_after_configures(s, serials).spec_has_drawn(),
    decreases serials.len(),
{
    if serials.len() > 0 {
        lemma_configures_preserve_drawn(spec_after_configure(s, serials[0]), serials.drop_first());
    }
}

} // verus!
