//! The order in which a render takes its samples and writes its pixels.
//!
//! Rows are taken from the top (row 0) down, pixels in a row from left to
//! right. Each row begins with a notice of how many rows remain; each pixel
//! takes its samples one after another and is then written, so that the
//! image is written in row-major order.
use vstd::prelude::*;
use vstd::arithmetic::div_mod::lemma_fundamental_div_mod_converse;

verus! {

/// One step of a render.
#[derive(PartialEq, Eq, Structural, Clone, Copy, Debug)]
pub enum RenderAction {
    /// A new row begins; `remaining` rows are left, this one included.
    Scanline { remaining: u32 },
    /// Take one sample of the pixel in column `i` of row `j`.
    Sample { i: u32, j: u32 },
    /// Write the pixel in column `i` of row `j`, averaged over its samples.
    Write { i: u32, j: u32 },
    /// Every pixel has been written.
    Done,
}

/// Number of steps in one row: its notice, then for each pixel its samples
/// and its write.
pub open spec fn row_len(width: int, samples: int) -> int {
    1 + width * (samples + 1)
}

/// Number of steps in the whole render, not counting `Done`.
pub open spec fn total_steps(width: int, height: int, samples: int) -> int {
    height * row_len(width, samples)
}

/// The step at position `k` of a render of `width` by `height` pixels with
/// `samples` samples per pixel.
pub open spec fn action_at(width: int, height: int, samples: int, k: int) -> RenderAction {
    let len = row_len(width, samples);
    if k >= total_steps(width, height, samples) {
        RenderAction::Done
    } else {
        let j = k / len;
        let r = k % len;
        if r == 0 {
            RenderAction::Scanline { remaining: (height - j) as u32 }
        } else {
            let i = (r - 1) / (samples + 1);
            let t = (r - 1) % (samples + 1);
            if t < samples {
                RenderAction::Sample { i: i as u32, j: j as u32 }
            } else {
                RenderAction::Write { i: i as u32, j: j as u32 }
            }
        }
    }
}

/// Position of the `t`-th step of the pixel in column `i` of row `j`: its
/// samples for `t < samples`, its write for `t == samples`.
pub open spec fn pixel_step(width: int, samples: int, i: int, j: int, t: int) -> int {
    j * row_len(width, samples) + 1 + i * (samples + 1) + t
}

/// Every pixel of the image takes `samples` samples of itself in a row and is
/// then written, and the pixels are written in row-major order: top row
/// first, left to right within a row.
pub proof fn lemma_row_major(
    width: int,
    height: int,
    samples: int,
    i: int,
    j: int,
    i2: int,
    j2: int,
)
    requires
        0 <= width <= u32::MAX,
        0 <= height <= u32::MAX,
        0 <= samples,
        0 <= i < width,
        0 <= j < height,
        0 <= i2 < width,
        0 <= j2 < height,
    ensures
        forall|t: int|
            0 <= t < samples ==> #[trigger] action_at(
                width,
                height,
                samples,
                pixel_step(width, samples, i, j, t),
            ) == (RenderAction::Sample { i: i as u32, j: j as u32 }),
        action_at(width, height, samples, pixel_step(width, samples, i, j, samples)) == (
        RenderAction::Write { i: i as u32, j: j as u32 }),
        (j < j2 || (j == j2 && i < i2)) ==> pixel_step(width, samples, i, j, samples)
            < pixel_step(width, samples, i2, j2, samples),
{
    let len = row_len(width, samples);
    assert forall|t: int| 0 <= t <= samples implies action_at(
        width,
        height,
        samples,
        pixel_step(width, samples, i, j, t),
    ) == (if t < samples {
        RenderAction::Sample { i: i as u32, j: j as u32 }
    } else {
        RenderAction::Write { i: i as u32, j: j as u32 }
    }) by {
        let k = pixel_step(width, samples, i, j, t);
        let r = 1 + i * (samples + 1) + t;
        assert(r < len) by (nonlinear_arith)
            requires
                len == 1 + width * (samples + 1),
                r == 1 + i * (samples + 1) + t,
                0 <= i,
                i + 1 <= width,
                0 <= t <= samples,
        ;
        assert(k < height * len) by (nonlinear_arith)
            requires
                k == j * len + r,
                0 <= r < len,
                0 <= j,
                j + 1 <= height,
        ;
        lemma_fundamental_div_mod_converse(k, len, j, r);
        lemma_fundamental_div_mod_converse(r - 1, samples + 1, i, t);
    }
    assert forall|t: int| 0 <= t < samples implies #[trigger] action_at(
        width,
        height,
        samples,
        pixel_step(width, samples, i, j, t),
    ) == (RenderAction::Sample { i: i as u32, j: j as u32 }) by {}
    if j < j2 || (j == j2 && i < i2) {
        if j < j2 {
            assert(1 + i * (samples + 1) + samples < len) by (nonlinear_arith)
                requires
                    len == 1 + width * (samples + 1),
                    i + 1 <= width,
                    samples >= 0,
            ;
            assert(j * len + len <= j2 * len) by (nonlinear_arith)
                requires
                    j + 1 <= j2,
                    len >= 1,
            ;
        } else {
            assert(i * (samples + 1) < i2 * (samples + 1)) by (nonlinear_arith)
                requires
                    i < i2,
                    samples >= 0,
            ;
        }
    }
}

/// Walks through the steps of a render, one at a time.
pub struct RenderCursor {
    width: u32,
    height: u32,
    samples: u32,
    row: u32,
    col: u32,
    taken: u32,
    announced: bool,
}

impl RenderCursor {
    pub closed spec fn spec_width(&self) -> int {
        self.width as int
    }

    pub closed spec fn spec_height(&self) -> int {
        self.height as int
    }

    pub closed spec fn spec_samples(&self) -> int {
        self.samples as int
    }

    /// How many steps have been handed out.
    pub closed spec fn position(&self) -> int {
        self.row * row_len(self.width as int, self.samples as int) + if self.announced {
            1 + self.col * (self.samples + 1) + self.taken
        } else {
            0
        }
    }

    pub closed spec fn wf(&self) -> bool {
        &&& self.row <= self.height
        &&& self.announced ==> self.row < self.height && self.col < self.width && self.taken
            <= self.samples
        &&& !self.announced ==> self.col == 0 && self.taken == 0
    }

    /// A cursor at the first step of a render of `width` by `height` pixels
    /// with `samples` samples per pixel.
    pub fn new(width: u32, height: u32, samples: u32) -> (c: RenderCursor)
        ensures
            c.wf(),
            c.spec_width() == width,
            c.spec_height() == height,
            c.spec_samples() == samples,
            c.position() == 0,
    {
        RenderCursor { width, height, samples, row: 0, col: 0, taken: 0, announced: false }
    }

    /// Hands out the current step and moves past it; once the render is
    /// over it keeps handing out `Done`.
    pub fn next(&mut self) -> (a: RenderAction)
        requires
            old(self).wf(),
        ensures
            final(self).wf(),
            final(self).spec_width() == old(self).spec_width(),
            final(self).spec_height() == old(self).spec_height(),
            final(self).spec_samples() == old(self).spec_samples(),
            a == action_at(
                old(self).spec_width(),
                old(self).spec_height(),
                old(self).spec_samples(),
                old(self).position(),
            ),
            old(self).position() < total_steps(
                old(self).spec_width(),
                old(self).spec_height(),
                old(self).spec_samples(),
            ) ==> final(self).position() == old(self).position() + 1,
            old(self).position() >= total_steps(
                old(self).spec_width(),
                old(self).spec_height(),
                old(self).spec_samples(),
            ) ==> final(self).position() == old(self).position(),
    {
        let ghost w = self.width as int;
        let ghost h = self.height as int;
        let ghost s = self.samples as int;
        let ghost len = row_len(w, s);
        let ghost k = self.position();
        let ghost j = self.row as int;
        assert(len >= 1) by (nonlinear_arith)
            requires
                len == 1 + w * (s + 1),
                w >= 0,
                s >= 0,
        ;
        if self.row >= self.height {
            assert(k >= total_steps(w, h, s)) by {
                assert(k == h * len);
            }
            return RenderAction::Done;
        }
        assert(k < total_steps(w, h, s)) by {
            assert(j * len + len <= h * len) by (nonlinear_arith)
                requires
                    j + 1 <= h,
                    len >= 1,
            ;
            if self.announced {
                assert(1 + self.col * (s + 1) + self.taken < len) by (nonlinear_arith)
                    requires
                        len == 1 + w * (s + 1),
                        self.col + 1 <= w,
                        self.taken <= s,
                        s >= 0,
                ;
            }
        }
        if !self.announced {
            proof {
                lemma_fundamental_div_mod_converse(k, len, j, 0);
            }
            let remaining = self.height - self.row;
            if self.width == 0 {
                self.row = self.row + 1;
                assert(len == 1);
            } else {
                self.announced = true;
            }
            return RenderAction::Scanline { remaining };
        }
        let ghost r = 1 + self.col * (s + 1) + self.taken;
        assert(r < len) by (nonlinear_arith)
            requires
                len == 1 + w * (s + 1),
                r == 1 + self.col * (s + 1) + self.taken,
                self.col + 1 <= w,
                self.taken <= s,
                s >= 0,
        ;
        proof {
            lemma_fundamental_div_mod_converse(k, len, j, r);
            lemma_fundamental_div_mod_converse(r - 1, s + 1, self.col as int, self.taken as int);
        }
        let i = self.col;
        let jj = self.row;
        if self.taken < self.samples {
            self.taken = self.taken + 1;
            RenderAction::Sample { i, j: jj }
        } else {
            self.taken = 0;
            if self.col + 1 < self.width {
                self.col = self.col + 1;
                assert(self.col * (s + 1) == (self.col - 1) * (s + 1) + s + 1) by (nonlinear_arith);
            } else {
                self.col = 0;
                self.announced = false;
                self.row = self.row + 1;
                assert((w - 1) * (s + 1) + s + 1 == w * (s + 1)) by (nonlinear_arith);
                assert((j + 1) * len == j * len + len) by (nonlinear_arith);
            }
            RenderAction::Write { i, j: jj }
        }
    }
}

} // verus!
