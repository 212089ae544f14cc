//! Produces pixel content: a checkerboard pattern whose phase scrolls with
//! time, at a rate of 24 pattern units per second.
//!
//! Animation time is kept in integer milliunits (one unit is 1000
//! milliunits), advanced by `elapsed_ms * 24` on each frame timestamp.  The
//! first timestamp after construction only sets the baseline and implies
//! zero elapsed time, so an uninitialized baseline can never produce a huge
//! or negative delta.

use vstd::prelude::*;

use crate::buffer::Buffer;
use crate::buffer::BufferPhase;
use crate::buffer::lemma_row_major_in_bounds;

verus! {

/// Dark cell color, packed 32-bit XRGB.
pub const COLOR1: u32 = 0xFF666666;

/// Light cell color, packed 32-bit XRGB.
pub const COLOR2: u32 = 0xFFEEEEEE;

/// Pattern units the phase advances per second of frame time.
pub const UNITS_PER_SECOND: u64 = 24;

/// The color of the checkerboard cell at `(x, y)` when the pattern is
/// scrolled by `offset`: cells alternate in bands of eight pixels, the
/// band parity switching every eight rows.
pub open spec fn checker_color(x: int, y: int, offset: int) -> u32 {
    if ((x + offset) + (y + offset) / 8 * 8) % 16 < 8 {
        COLOR1
    } else {
        COLOR2
    }
}

/// Scrolling-checkerboard content producer.
pub struct Painter {
    offset_milliunits: u64,
    last_frame: u32,
    has_baseline: bool,
}

impl Painter {
    /// Accumulated animation phase, in 1/1000ths of a pattern unit.
    pub closed spec fn spec_offset_milliunits(self) -> u64 {
        self.offset_milliunits
    }

    /// The most recent frame timestamp, in milliseconds.
    pub closed spec fn spec_last_frame(self) -> u32 {
        self.last_frame
    }

    /// Whether any frame timestamp has been received since construction.
    pub closed spec fn spec_has_baseline(self) -> bool {
        self.has_baseline
    }

    /// Animation phase in whole pattern units.
    pub open spec fn spec_offset_units(self) -> u64 {
        self.spec_offset_milliunits() / 1000
    }

    /// The phase the checkerboard is drawn with: the unit count, wrapped
    /// to the pattern's period of eight pixels.
    pub open spec fn spec_draw_offset(self) -> usize {
        (self.spec_offset_units() % 8) as usize
    }

    pub fn new() -> (painter: Painter)
        ensures
            painter.spec_offset_milliunits() == 0,
            !painter.spec_has_baseline(),
    {
        Painter { offset_milliunits: 0, last_frame: 0, has_baseline: false }
    }

    /// Advances the animation phase by the time elapsed since the previous
    /// frame timestamp.  The first timestamp only records the baseline:
    /// it implies zero elapsed time and leaves the phase unchanged.
    /// Frame timestamps are monotonically non-decreasing, so the elapsed
    /// time is never negative; the accumulator saturates rather than wrap.
    pub fn update_time(&mut self, time: u32)
        requires
            old(self).spec_has_baseline() ==> time >= old(self).spec_last_frame(),
        ensures
            final(self).spec_has_baseline(),
            final(self).spec_last_frame() == time,
            !old(self).spec_has_baseline()
                ==> final(self).spec_offset_milliunits() == old(self).spec_offset_milliunits(),
            old(self).spec_has_baseline()
                ==> final(self).spec_offset_milliunits() == advance_milliunits(
                    old(self).spec_offset_milliunits(),
                    (time - old(self).spec_last_frame()) as u32,
                ),
    {
        if self.has_baseline {
            let elapsed = time - self.last_frame;
            let gain = (elapsed as u64) * UNITS_PER_SECOND;
            if self.offset_milliunits <= u64::MAX - gain {
                self.offset_milliunits = self.offset_milliunits + gain;
            } else {
                self.offset_milliunits = u64::MAX;
            }
        }
        self.last_frame = time;
        self.has_baseline = true;
    }

    /// Animation phase in whole pattern units.
    pub fn offset_units(&self) -> (units: u64)
        ensures
            units == self.spec_offset_units(),
    {
        self.offset_milliunits / 1000
    }

    /// The phase the checkerboard is drawn with, in `0..8`.
    pub fn offset(&self) -> (offset: usize)
        ensures
            offset == self.spec_draw_offset(),
            offset < 8,
    {
        (self.offset_milliunits / 1000 % 8) as usize
    }

    /// Fills the buffer with the checkerboard at the current phase.
    pub fn draw(&self, buffer: &mut Buffer)
        requires
            old(buffer).wf(),
            old(buffer).spec_phase() == BufferPhase::Writable,
        ensures
            final(buffer).wf(),
            final(buffer).spec_phase() == BufferPhase::Writable,
            final(buffer).spec_width() == old(buffer).spec_width(),
            final(buffer).spec_height() == old(buffer).spec_height(),
            final(buffer).spec_pixels().len() == old(buffer).spec_pixels().len(),
            forall|x: int, y: int|
                0 <= x < final(buffer).spec_width() && 0 <= y < final(buffer).spec_height()
                    ==> final(buffer).spec_pixels()[y * final(buffer).spec_width() + x]
                        == checker_color(x, y, self.spec_draw_offset() as int),
    {
        let offset = self.offset();
        draw_checkerboard_pattern(buffer, offset);
    }
}

/// Milliunit accumulation for one frame: `elapsed_ms * 24` more milliunits,
/// saturating at the accumulator's maximum.
pub open spec fn advance_milliunits(offset: u64, elapsed_ms: u32) -> u64 {
    if offset + elapsed_ms * UNITS_PER_SECOND <= u64::MAX {
        (offset + elapsed_ms * UNITS_PER_SECOND) as u64
    } else {
        u64::MAX
    }
}

/// Distinct cells of a row-major grid have distinct pixel indices.
proof fn lemma_row_major_injective(x1: int, y1: int, x2: int, y2: int, width: int)
    by (nonlinear_arith)
    requires
        0 <= x1 < width,
        0 <= x2 < width,
        0 <= y1,
        0 <= y2,
        (x1, y1) != (x2, y2),
    ensures
        y1 * width + x1 != y2 * width + x2,
{
}

/// A cell coordinate of a grid whose pixel bytes fit in a `usize` is far
/// from the `usize` range's end, so the pattern arithmetic cannot overflow.
proof fn lemma_cell_coordinate_small(x: int, y: int, width: int, height: int)
    by (nonlinear_arith)
    requires
        0 <= x < width,
        0 <= y < height,
        width * height * 4 <= usize::MAX,
    ensures
        4 * x < usize::MAX,
        4 * y < usize::MAX,
{
}

/// Writes `checker_color(x, y, offset)` to every cell of the buffer.
fn draw_checkerboard_pattern(buffer: &mut Buffer, offset: usize)
    requires
        old(buffer).wf(),
        old(buffer).spec_phase() == BufferPhase::Writable,
        offset < 8,
    ensures
        final(buffer).wf(),
        final(buffer).spec_phase() == BufferPhase::Writable,
        final(buffer).spec_width() == old(buffer).spec_width(),
        final(buffer).spec_height() == old(buffer).spec_height(),
        final(buffer).spec_pixels().len() == old(buffer).spec_pixels().len(),
        forall|x: int, y: int|
            0 <= x < final(buffer).spec_width() && 0 <= y < final(buffer).spec_height()
                ==> final(buffer).spec_pixels()[y * final(buffer).spec_width() + x]
                    == checker_color(x, y, offset as int),
{
    let width = buffer.width();
    let height = buffer.height();
    let ghost len0 = buffer.spec_pixels().len();
    let mut y: usize = 0;
    while y < height
        invariant
            y <= height,
            offset < 8,
            buffer.wf(),
            buffer.spec_phase() == BufferPhase::Writable,
            buffer.spec_width() == width,
            buffer.spec_height() == height,
            buffer.spec_pixels().len() == len0,
            forall|xx: int, yy: int|
                0 <= xx < width && 0 <= yy < y
                    ==> buffer.spec_pixels()[yy * width + xx]
                        == checker_color(xx, yy, offset as int),
        decreases height - y,
    {
        let mut x: usize = 0;
        while x < width
            invariant
                x <= width,
                y < height,
                offset < 8,
                buffer.wf(),
                buffer.spec_phase() == BufferPhase::Writable,
                buffer.spec_width() == width,
                buffer.spec_height() == height,
                buffer.spec_pixels().len() == len0,
                forall|xx: int, yy: int|
                    0 <= xx < width && 0 <= yy < y
                        ==> buffer.spec_pixels()[yy * width + xx]
                            == checker_color(xx, yy, offset as int),
                forall|xx: int|
                    0 <= xx < x
                        ==> buffer.spec_pixels()[y * width + xx]
                            == checker_color(xx, y as int, offset as int),
            decreases width - x,
        {
            proof {
                lemma_cell_coordinate_small(x as int, y as int, width as int, height as int);
            }
            let color = if ((x + offset) + (y + offset) / 8 * 8) % 16 < 8 {
                COLOR1
            } else {
                COLOR2
            };
            let ghost before = buffer.spec_pixels();
            let ghost target: int = y * width + x;
            buffer.put_pixel(x, y, color);
            proof {
                lemma_row_major_in_bounds(x as int, y as int, width as int, height as int);
                assert(buffer.spec_pixels() == before.update(target, color));
                assert forall|xx: int, yy: int|
                    0 <= xx < width && 0 <= yy < y implies buffer.spec_pixels()[yy * width + xx]
                    == checker_color(xx, yy, offset as int) by {
                    lemma_row_major_injective(xx, yy, x as int, y as int, width as int);
                    lemma_row_major_in_bounds(xx, yy, width as int, height as int);
                    assert(before.update(target, color)[yy * width + xx] == before[yy * width
                        + xx]);
                }
                assert forall|xx: int| 0 <= xx < x implies buffer.spec_pixels()[y * width + xx]
                    == checker_color(xx, y as int, offset as int) by {
                    lemma_row_major_injective(xx, y as int, x as int, y as int, width as int);
                    lemma_row_major_in_bounds(xx, y as int, width as int, height as int);
                    assert(before.update(target, color)[y * width + xx] == before[y * width + xx]);
                }
                assert(before.update(target, color)[target] == color);
            }
            x = x + 1;
        }
        y = y + 1;
    }
}

} // verus!
