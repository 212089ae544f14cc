//! One drawable pixel buffer backed by a shared-memory region.
//!
//! A buffer is a fixed-geometry grid of packed 32-bit XRGB pixels with a
//! stride of exactly four bytes per pixel times the width.  Its byte length
//! equals `height * stride`.  After it has been attached to a surface the
//! compositor may still be reading it, so writing is forbidden from the
//! attach until the compositor's release is observed; release frees the
//! buffer exactly once.

use vstd::prelude::*;

verus! {

/// Lifecycle of one buffer: writable until attached, then hands-off until
/// the compositor releases it, which destroys it.
#[derive(PartialEq, Eq, Structural, Clone, Copy, Debug)]
pub enum BufferPhase {
    /// Only this client holds the region: pixel writes are allowed.
    Writable,
    /// Attached to a surface: the compositor may be reading the region.
    Attached,
    /// Released by the compositor and freed; must never be touched again.
    Released,
}

/// One drawable pixel surface registered with the compositor.
pub struct Buffer {
    width: usize,
    height: usize,
    pixels: Vec<u32>,
    phase: BufferPhase,
}

impl Buffer {
    /// The buffer holds one 32-bit pixel per cell of a `width` by `height`
    /// grid small enough that its byte length fits in a `usize`.
    pub open spec fn wf(self) -> bool {
        &&& self.spec_pixels().len() == self.spec_width() * self.spec_height()
        &&& self.spec_width() * self.spec_height() * 4 <= usize::MAX
    }

    pub closed spec fn spec_width(self) -> usize {
        self.width
    }

    pub closed spec fn spec_height(self) -> usize {
        self.height
    }

    pub closed spec fn spec_pixels(self) -> Seq<u32> {
        self.pixels@
    }

    pub closed spec fn spec_phase(self) -> BufferPhase {
        self.phase
    }

    /// Byte length of the backing region: height times a stride of
    /// four bytes per pixel.
    pub open spec fn spec_byte_len(self) -> int {
        self.spec_height() * (4 * self.spec_width())
    }

    /// Creates a buffer over a region of exactly `region_size` bytes.
    ///
    /// The region size must equal `height * 4 * width`: a mismatch is a
    /// caller bug, not a recoverable error, because the stride assumption
    /// is baked into every pixel write.
    pub fn new(region_size: usize, width: usize, height: usize) -> (buffer: Buffer)
        requires
            region_size == height * (4 * width),
        ensures
            buffer.wf(),
            buffer.spec_width() == width,
            buffer.spec_height() == height,
            buffer.spec_phase() == BufferPhase::Writable,
            buffer.spec_byte_len() == region_size,
            buffer.spec_pixels() == Seq::<u32>::new((width * height) as nat, |i: int| 0u32),
    {
        proof {
            assert(width * height * 4 == height * (4 * width)) by (nonlinear_arith);
        }
        let count = width * height;
        let mut pixels: Vec<u32> = Vec::new();
        let mut i: usize = 0;
        while i < count
            invariant
                i <= count,
                pixels@ =~= Seq::<u32>::new(i as nat, |j: int| 0u32),
            decreases count - i,
        {
            pixels.push(0u32);
            i = i + 1;
        }
        Buffer { width, height, pixels, phase: BufferPhase::Writable }
    }

    pub fn width(&self) -> (w: usize)
        ensures
            w == self.spec_width(),
    {
        self.width
    }

    pub fn height(&self) -> (h: usize)
        ensures
            h == self.spec_height(),
    {
        self.height
    }

    /// Byte length of the backing shared-memory region.
    pub fn byte_len(&self) -> (n: usize)
        requires
            self.wf(),
        ensures
            n == self.spec_byte_len(),
    {
        proof {
            assert(self.width * self.height * 4 == self.height * (4 * self.width))
                by (nonlinear_arith);
        }
        self.width * self.height * 4
    }

    /// Writes one pixel; forbidden once the buffer has been attached,
    /// because the compositor may be reading the region.
    pub fn put_pixel(&mut self, x: usize, y: usize, color: u32)
        requires
            old(self).wf(),
            old(self).spec_phase() == BufferPhase::Writable,
            x < old(self).spec_width(),
            y < old(self).spec_height(),
        ensures
            final(self).wf(),
            final(self).spec_width() == old(self).spec_width(),
            final(self).spec_height() == old(self).spec_height(),
            final(self).spec_phase() == BufferPhase::Writable,
            final(self).spec_pixels()
                == old(self).spec_pixels().update(y * old(self).spec_width() + x, color),
    {
        proof {
            lemma_row_major_in_bounds(x as int, y as int, self.width as int, self.height as int);
        }
        let index = y * self.width + x;
        self.pixels[index] = color;
    }

    /// Reads one pixel.
    pub fn pixel(&self, x: usize, y: usize) -> (color: u32)
        requires
            self.wf(),
            x < self.spec_width(),
            y < self.spec_height(),
        ensures
            color == self.spec_pixels()[y * self.spec_width() + x],
    {
        proof {
            lemma_row_major_in_bounds(x as int, y as int, self.width as int, self.height as int);
        }
        self.pixels[y * self.width + x]
    }

    /// Marks the buffer as attached to a surface: from here until the
    /// compositor's release, the region is hands-off.
    pub fn attach(&mut self)
        requires
            old(self).wf(),
            old(self).spec_phase() == BufferPhase::Writable,
        ensures
            final(self).wf(),
            final(self).spec_phase() == BufferPhase::Attached,
            final(self).spec_width() == old(self).spec_width(),
            final(self).spec_height() == old(self).spec_height(),
            final(self).spec_pixels() == old(self).spec_pixels(),
    {
        self.phase = BufferPhase::Attached;
    }

    /// Consumes the compositor's release notification: the buffer is freed
    /// here and exactly here.  Requiring the attached phase rules out both
    /// a release of a never-attached buffer and a double free.
    pub fn release(&mut self)
        requires
            old(self).wf(),
            old(self).spec_phase() == BufferPhase::Attached,
        ensures
            final(self).wf(),
            final(self).spec_phase() == BufferPhase::Released,
            final(self).spec_width() == old(self).spec_width(),
            final(self).spec_height() == old(self).spec_height(),
            final(self).spec_pixels() == old(self).spec_pixels(),
    {
        self.phase = BufferPhase::Released;
    }
}

/// In a row-major grid, the cell `(x, y)` lies inside the pixel array.
pub proof fn lemma_row_major_in_bounds(x: int, y: int, width: int, height: int)
    by (nonlinear_arith)
    requires
        0 <= x < width,
        0 <= y < height,
    ensures
        0 <= y * width + x < width * height,
{
}

} // verus!
