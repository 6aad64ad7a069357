//! Double-buffered framebuffer: drawing happens in a back buffer of 32-bit
//! pixels laid out in rows of `pitch / 4` pixels.

use vstd::prelude::*;

verus! {

/// Framebuffer geometry and back buffer (the render target).
pub struct Framebuffer {
    /// Back buffer, `pitch / 4` pixels per row, `height` rows
    pub back_buffer: Vec<u32>,
    pub width: usize,
    pub height: usize,
    /// Bytes per row
    pub pitch: usize,
    pub bpp: u16,
}

/// Index of pixel (x, y) in a buffer with rows of `stride` pixels.
pub open spec fn pixel_index(stride: int, x: int, y: int) -> int {
    y * stride + x
}

/// Every visible pixel `(x, y)` for which `paint` gives a color takes that color;
/// every other pixel of the buffer (including row padding) keeps its value.
pub open spec fn repainted(
    old_fb: Framebuffer,
    new_fb: Framebuffer,
    paint: spec_fn(int, int) -> Option<u32>,
) -> bool {
    &&& new_fb.width == old_fb.width
    &&& new_fb.height == old_fb.height
    &&& new_fb.pitch == old_fb.pitch
    &&& new_fb.bpp == old_fb.bpp
    &&& new_fb.back_buffer@.len() == old_fb.back_buffer@.len()
    &&& forall|x: int, y: int|
        0 <= x < old_fb.stride() && 0 <= y < old_fb.height ==> #[trigger] new_fb.pixel(x, y) == (
        if x < old_fb.width && paint(x, y) is Some {
            paint(x, y)->0
        } else {
            old_fb.pixel(x, y)
        })
}

/// Rule painting every pixel of the half-open rectangle `[x0, x1) x [y0, y1)` with `color`.
pub open spec fn solid_rect(x0: int, y0: int, x1: int, y1: int, color: u32) -> spec_fn(int, int) -> Option<u32> {
    |x: int, y: int| if x0 <= x < x1 && y0 <= y < y1 { Some(color) } else { None }
}

impl Framebuffer {
    /// Pixels per row.
    pub open spec fn stride(self) -> int {
        self.pitch as int / 4
    }

    /// The back buffer holds exactly `height` rows of `pitch / 4` pixels, and
    /// the visible width fits within a row.
    pub open spec fn wf(self) -> bool {
        &&& self.width <= self.stride()
        &&& self.back_buffer@.len() == self.stride() * self.height
    }

    /// Pixel at column `x`, row `y` of the back buffer.
    pub open spec fn pixel(self, x: int, y: int) -> u32 {
        self.back_buffer@[pixel_index(self.stride(), x, y)]
    }

    /// Create a framebuffer of the given mode with a zeroed back buffer.
    pub fn new(width: usize, height: usize, pitch: usize, bpp: u16) -> (r: Option<Framebuffer>)
        ensures
            r is Some <==> (width <= pitch / 4 && (pitch / 4) * height <= usize::MAX),
            r matches Some(fb) ==> fb.wf() && fb.width == width && fb.height == height
                && fb.pitch == pitch && fb.bpp == bpp
                && forall|i: int| 0 <= i < fb.back_buffer@.len() ==> fb.back_buffer@[i] == 0,
    {
        let row_pixels = pitch / 4;
        if width > row_pixels {
            return None;
        }
        if height > 0 && row_pixels > usize::MAX / height {
            proof {
                lemma_mul_exceeds(row_pixels as int, height as int);
            }
            return None;
        }
        proof {
            if height > 0 {
                lemma_mul_within(row_pixels as int, height as int);
            }
        }
        let total = row_pixels * height;
        let back_buffer = vec![0u32; total];
        Some(Framebuffer { back_buffer, width, height, pitch, bpp })
    }

    /// Write pixel (x, y), which must be visible.
    fn write(&mut self, x: usize, y: usize, color: u32)
        requires
            old(self).wf(),
            x < old(self).width,
            y < old(self).height,
        ensures
            repainted(*old(self), *final(self), solid_rect(x as int, y as int, x + 1, y + 1, color)),
            final(self).wf(),
    {
        let stride = self.pitch / 4;
        let _total = self.back_buffer.len();
        proof {
            lemma_index_in_bounds(stride as int, self.height as int, x as int, y as int);
        }
        let offset = y * stride + x;
        self.back_buffer.set(offset, color);
        proof {
            let ghost o = *old(self);
            assert forall|px: int, py: int| 0 <= px < o.stride() && 0 <= py < o.height implies
                #[trigger] self.pixel(px, py) == (if px < o.width && solid_rect(x as int, y as int, x + 1, y + 1, color)(px, py) is Some {
                    solid_rect(x as int, y as int, x + 1, y + 1, color)(px, py)->0
                } else {
                    o.pixel(px, py)
                }) by {
                lemma_index_in_bounds(stride as int, self.height as int, px, py);
                if px != x || py != y {
                    lemma_index_injective(stride as int, px, py, x as int, y as int);
                }
            }
        }
    }

    /// Put a pixel at (x, y) with color; pixels outside the visible area are ignored.
    pub fn put_pixel(&mut self, x: usize, y: usize, color: u32)
        requires
            old(self).wf(),
        ensures
            final(self).wf(),
            repainted(*old(self), *final(self), solid_rect(x as int, y as int, x + 1, y + 1, color)),
    {
        if x < self.width && y < self.height {
            self.write(x, y, color);
        } else {
            assert forall|px: int, py: int| 0 <= px < old(self).stride() && 0 <= py < old(self).height implies
                #[trigger] self.pixel(px, py) == (if px < old(self).width && solid_rect(x as int, y as int, x + 1, y + 1, color)(px, py) is Some {
                    solid_rect(x as int, y as int, x + 1, y + 1, color)(px, py)->0
                } else {
                    old(self).pixel(px, py)
                }) by {}
        }
    }

    /// Alias for `put_pixel`.
    pub fn set_pixel(&mut self, x: usize, y: usize, color: u32)
        requires
            old(self).wf(),
        ensures
            final(self).wf(),
            repainted(*old(self), *final(self), solid_rect(x as int, y as int, x + 1, y + 1, color)),
    {
        self.put_pixel(x, y, color);
    }

    /// Get pixel at (x, y) from the back buffer; 0 outside the visible area.
    pub fn get_pixel(&self, x: usize, y: usize) -> (r: u32)
        requires
            self.wf(),
        ensures
            r == if x < self.width && y < self.height { self.pixel(x as int, y as int) } else { 0 },
    {
        if x < self.width && y < self.height {
            let stride = self.pitch / 4;
            let _total = self.back_buffer.len();
            proof {
                lemma_index_in_bounds(stride as int, self.height as int, x as int, y as int);
            }
            self.back_buffer[y * stride + x]
        } else {
            0
        }
    }

    /// Get pixel at a linear index of the back buffer; 0 past its end.
    pub fn pixel_at(&self, idx: usize) -> (r: u32)
        ensures
            r == if idx < self.back_buffer@.len() { self.back_buffer@[idx as int] } else { 0 },
    {
        if idx < self.back_buffer.len() {
            self.back_buffer[idx]
        } else {
            0
        }
    }

    /// Set pixel at a linear index of the back buffer; ignored past its end.
    pub fn set_pixel_at(&mut self, idx: usize, color: u32)
        ensures
            final(self).back_buffer@ == if idx < old(self).back_buffer@.len() {
                old(self).back_buffer@.update(idx as int, color)
            } else {
                old(self).back_buffer@
            },
            final(self).width == old(self).width,
            final(self).height == old(self).height,
            final(self).pitch == old(self).pitch,
            final(self).bpp == old(self).bpp,
    {
        if idx < self.back_buffer.len() {
            self.back_buffer.set(idx, color);
        }
    }

    /// Clear the whole back buffer (row padding included) with a color.
    pub fn clear(&mut self, color: u32)
        ensures
            final(self).back_buffer@.len() == old(self).back_buffer@.len(),
            forall|i: int| 0 <= i < final(self).back_buffer@.len() ==> final(self).back_buffer@[i] == color,
            final(self).width == old(self).width,
            final(self).height == old(self).height,
            final(self).pitch == old(self).pitch,
            final(self).bpp == old(self).bpp,
    {
        let n = self.back_buffer.len();
        let mut i: usize = 0;
        while i < n
            invariant
                n == self.back_buffer@.len(),
                n == old(self).back_buffer@.len(),
                i <= n,
                forall|j: int| 0 <= j < i ==> self.back_buffer@[j] == color,
                self.width == old(self).width,
                self.height == old(self).height,
                self.pitch == old(self).pitch,
                self.bpp == old(self).bpp,
            decreases n - i,
        {
            self.back_buffer.set(i, color);
            i += 1;
        }
    }

    /// Fill a rectangle of `w` x `h` pixels at (x, y), clipped to the visible area.
    pub fn fill_rect(&mut self, x: usize, y: usize, w: usize, h: usize, color: u32)
        requires
            old(self).wf(),
            w > 0 && h > 0 ==> x + w - 1 <= usize::MAX && y + h - 1 <= usize::MAX,
        ensures
            final(self).wf(),
            repainted(*old(self), *final(self), solid_rect(x as int, y as int, x + w, y + h, color)),
    {
        let x1 = x.saturating_add(w);
        let y1 = y.saturating_add(h);
        fill_span_rect(self, x, y, x1, y1, color);
        proof {
            lemma_repainted_same_rule(
                *old(self),
                *self,
                solid_rect(x as int, y as int, x1 as int, y1 as int, color),
                solid_rect(x as int, y as int, x + w, y + h, color),
            );
        }
    }

    /// Draw a horizontal line on row `y` between columns `x1` and `x2` (either
    /// order, end exclusive), clipped to the visible area.
    pub fn hline(&mut self, x1: usize, x2: usize, y: usize, color: u32)
        requires
            old(self).wf(),
        ensures
            final(self).wf(),
            repainted(*old(self), *final(self), solid_rect(
                if x1 < x2 { x1 as int } else { x2 as int }, y as int,
                if x1 < x2 { x2 as int } else { x1 as int }, y + 1, color)),
    {
        if y >= self.height {
            proof {
                assert forall|px: int, py: int| 0 <= px < self.stride() && 0 <= py < self.height implies
                    #[trigger] self.pixel(px, py) == (if px < self.width && solid_rect(
                        if x1 < x2 { x1 as int } else { x2 as int }, y as int,
                        if x1 < x2 { x2 as int } else { x1 as int }, y + 1, color)(px, py) is Some {
                        solid_rect(if x1 < x2 { x1 as int } else { x2 as int }, y as int,
                        if x1 < x2 { x2 as int } else { x1 as int }, y + 1, color)(px, py)->0
                    } else {
                        self.pixel(px, py)
                    }) by {}
            }
            return;
        }
        let lo = if x1 < x2 { x1 } else { x2 };
        let hi = if x1 < x2 { x2 } else { x1 };
        let start = if lo < self.width { lo } else { self.width };
        let end = if hi < self.width { hi } else { self.width };
        fill_span_rect(self, start, y, end, y + 1, color);
        proof {
            lemma_repainted_same_rule(
                *old(self),
                *self,
                solid_rect(start as int, y as int, end as int, y + 1, color),
                solid_rect(lo as int, y as int, hi as int, y + 1, color),
            );
        }
    }

    /// Get total visible pixel count.
    pub fn pixel_count(&self) -> (r: usize)
        requires
            self.wf(),
        ensures
            r == self.width * self.height,
    {
        let _total = self.back_buffer.len();
        proof {
            lemma_visible_count(self.width as int, self.stride(), self.height as int);
        }
        self.width * self.height
    }
}

/// Restrict a paint rule to the half-open rectangle `[x0, x1) x [y0, y1)`.
pub open spec fn within(x0: int, y0: int, x1: int, y1: int, rule: spec_fn(int, int) -> Option<u32>) -> spec_fn(int, int) -> Option<u32> {
    |x: int, y: int| if x0 <= x < x1 && y0 <= y < y1 { rule(x, y) } else { None }
}

/// Paint the pixels of `[x0, x1) x [y0, y1)`, clipped to the visible area, with
/// the colors chosen by `f` (a pixel for which `f` gives `None` is left alone).
pub(crate) fn paint_rect<F: Fn(usize, usize) -> Option<u32>>(
    fb: &mut Framebuffer,
    x0: usize,
    y0: usize,
    x1: usize,
    y1: usize,
    f: F,
    Ghost(rule): Ghost<spec_fn(int, int) -> Option<u32>>,
)
    requires
        old(fb).wf(),
        forall|px: usize, py: usize|
            x0 <= px < x1 && y0 <= py < y1 && px < old(fb).width && py < old(fb).height
                ==> #[trigger] call_requires(f, (px, py)),
        forall|px: usize, py: usize, r: Option<u32>|
            #[trigger] call_ensures(f, (px, py), r) ==> r == rule(px as int, py as int),
    ensures
        final(fb).wf(),
        repainted(*old(fb), *final(fb), within(x0 as int, y0 as int, x1 as int, y1 as int, rule)),
{
    let ghost o = *fb;
    let ghost paint = within(x0 as int, y0 as int, x1 as int, y1 as int, rule);
    let _total = fb.back_buffer.len();
    let stride = fb.pitch / 4;
    let xe = if x1 < fb.width { x1 } else { fb.width };
    let ye = if y1 < fb.height { y1 } else { fb.height };
    let mut py = y0;
    while py < ye
        invariant
            fb.wf(),
            fb.width == o.width,
            fb.height == o.height,
            fb.pitch == o.pitch,
            fb.bpp == o.bpp,
            stride == o.stride(),
            fb.back_buffer@.len() == o.back_buffer@.len(),
            xe == (if x1 < o.width { x1 } else { o.width }),
            ye == (if y1 < o.height { y1 } else { o.height }),
            _total == o.back_buffer@.len(),
            paint == within(x0 as int, y0 as int, x1 as int, y1 as int, rule),
            y0 <= py,
            forall|px: usize, qy: usize|
                x0 <= px < x1 && y0 <= qy < y1 && px < o.width && qy < o.height
                    ==> #[trigger] call_requires(f, (px, qy)),
            forall|px: usize, qy: usize, r: Option<u32>|
                #[trigger] call_ensures(f, (px, qy), r) ==> r == rule(px as int, qy as int),
            forall|x: int, y: int|
                0 <= x < o.stride() && 0 <= y < o.height ==> #[trigger] fb.pixel(x, y) == (
                if y < py && x < o.width && paint(x, y) is Some {
                    paint(x, y)->0
                } else {
                    o.pixel(x, y)
                }),
        decreases ye - py,
    {
        let mut px = x0;
        proof {
            assert forall|x: int, y: int| 0 <= x < o.stride() && 0 <= y < o.height implies
                #[trigger] fb.pixel(x, y) == (
                if (y < py || (y == py && x < px)) && x < o.width && paint(x, y) is Some {
                    paint(x, y)->0
                } else {
                    o.pixel(x, y)
                }) by {
                if y == py && x < px {
                    assert(paint(x, y) is None);
                }
            }
        }
        while px < xe
            invariant
                fb.wf(),
                fb.width == o.width,
                fb.height == o.height,
                fb.pitch == o.pitch,
                fb.bpp == o.bpp,
                stride == o.stride(),
                fb.back_buffer@.len() == o.back_buffer@.len(),
                xe == (if x1 < o.width { x1 } else { o.width }),
                ye == (if y1 < o.height { y1 } else { o.height }),
                _total == o.back_buffer@.len(),
                paint == within(x0 as int, y0 as int, x1 as int, y1 as int, rule),
                py < ye,
                y0 <= py,
                x0 <= px,
                forall|qx: usize, qy: usize|
                    x0 <= qx < x1 && y0 <= qy < y1 && qx < o.width && qy < o.height
                        ==> #[trigger] call_requires(f, (qx, qy)),
                forall|qx: usize, qy: usize, r: Option<u32>|
                    #[trigger] call_ensures(f, (qx, qy), r) ==> r == rule(qx as int, qy as int),
                forall|x: int, y: int|
                    0 <= x < o.stride() && 0 <= y < o.height ==> #[trigger] fb.pixel(x, y) == (
                    if (y < py || (y == py && x < px)) && x < o.width && paint(x, y) is Some {
                        paint(x, y)->0
                    } else {
                        o.pixel(x, y)
                    }),
            decreases xe - px,
        {
            let c = f(px, py);
            match c {
                Some(color) => {
                    proof {
                        lemma_index_in_bounds(stride as int, o.height as int, px as int, py as int);
                    }
                    let ghost before = *fb;
                    fb.back_buffer.set(py * stride + px, color);
                    proof {
                        assert forall|x: int, y: int| 0 <= x < o.stride() && 0 <= y < o.height implies
                            #[trigger] fb.pixel(x, y) == (
                            if (y < py || (y == py && x < px + 1)) && x < o.width && paint(x, y) is Some {
                                paint(x, y)->0
                            } else {
                                o.pixel(x, y)
                            }) by {
                            lemma_index_in_bounds(stride as int, o.height as int, x, y);
                            if x != px || y != py {
                                lemma_index_injective(stride as int, x, y, px as int, py as int);
                                assert(fb.pixel(x, y) == before.pixel(x, y));
                            }
                        }
                    }
                },
                None => {
                    proof {
                        assert forall|x: int, y: int| 0 <= x < o.stride() && 0 <= y < o.height implies
                            #[trigger] fb.pixel(x, y) == (
                            if (y < py || (y == py && x < px + 1)) && x < o.width && paint(x, y) is Some {
                                paint(x, y)->0
                            } else {
                                o.pixel(x, y)
                            }) by {}
                    }
                },
            }
            px += 1;
        }
        proof {
            assert forall|x: int, y: int| 0 <= x < o.stride() && 0 <= y < o.height implies
                #[trigger] fb.pixel(x, y) == (
                if y < py + 1 && x < o.width && paint(x, y) is Some {
                    paint(x, y)->0
                } else {
                    o.pixel(x, y)
                }) by {
                if y == py && x >= px && x < o.width {
                    assert(paint(x, y) is None);
                }
            }
        }
        py += 1;
    }
    proof {
        assert forall|x: int, y: int| 0 <= x < o.stride() && 0 <= y < o.height implies
            #[trigger] fb.pixel(x, y) == (
            if x < o.width && paint(x, y) is Some {
                paint(x, y)->0
            } else {
                o.pixel(x, y)
            }) by {
            if y >= py {
                assert(paint(x, y) is None);
            }
        }
    }
}

/// Repainting by a rule only depends on the rule's values at visible pixels.
pub proof fn lemma_repainted_same_rule(
    old_fb: Framebuffer,
    new_fb: Framebuffer,
    p1: spec_fn(int, int) -> Option<u32>,
    p2: spec_fn(int, int) -> Option<u32>,
)
    requires
        repainted(old_fb, new_fb, p1),
        forall|x: int, y: int| 0 <= x < old_fb.width && 0 <= y < old_fb.height ==> #[trigger] p1(x, y) == p2(x, y),
    ensures
        repainted(old_fb, new_fb, p2),
{
    assert forall|x: int, y: int| 0 <= x < old_fb.stride() && 0 <= y < old_fb.height implies
        #[trigger] new_fb.pixel(x, y) == (if x < old_fb.width && p2(x, y) is Some {
            p2(x, y)->0
        } else {
            old_fb.pixel(x, y)
        }) by {
        if x < old_fb.width {
            assert(p1(x, y) == p2(x, y));
        }
    }
}

/// Fill the rectangle `[x0, x1) x [y0, y1)`, clipped to the visible area, with one color.
pub(crate) fn fill_span_rect(fb: &mut Framebuffer, x0: usize, y0: usize, x1: usize, y1: usize, color: u32)
    requires
        old(fb).wf(),
    ensures
        final(fb).wf(),
        repainted(*old(fb), *final(fb), solid_rect(x0 as int, y0 as int, x1 as int, y1 as int, color)),
{
    let ghost rule = |x: int, y: int| Some(color);
    let f = |px: usize, py: usize| -> (r: Option<u32>)
        ensures
            r == Some(color),
        { Some(color) };
    paint_rect(fb, x0, y0, x1, y1, f, Ghost(rule));
    proof {
        lemma_repainted_same_rule(
            *old(fb),
            *fb,
            within(x0 as int, y0 as int, x1 as int, y1 as int, rule),
            solid_rect(x0 as int, y0 as int, x1 as int, y1 as int, color),
        );
    }
}

/// Rule `p2` drawn over rule `p1`: where `p2` paints, its color wins.
pub open spec fn overlay(p1: spec_fn(int, int) -> Option<u32>, p2: spec_fn(int, int) -> Option<u32>) -> spec_fn(int, int) -> Option<u32> {
    |x: int, y: int| if p2(x, y) is Some { p2(x, y) } else { p1(x, y) }
}

/// The visible width of a well-formed framebuffer is at most a quarter of the
/// address range (a row holds `pitch / 4` pixels).
pub proof fn lemma_width_bound(fb: Framebuffer)
    requires
        fb.wf(),
    ensures
        fb.width <= usize::MAX / 4,
{
}

/// Rule that paints nothing.
pub open spec fn no_paint() -> spec_fn(int, int) -> Option<u32> {
    |x: int, y: int| None
}

/// A framebuffer is its own repainting by the rule that paints nothing.
pub proof fn lemma_repainted_nothing(fb: Framebuffer)
    ensures
        repainted(fb, fb, no_paint()),
{
}

/// Repainting by `p1` and then by `p2` is repainting by `p2` over `p1`.
pub proof fn lemma_repainted_compose(
    a: Framebuffer,
    b: Framebuffer,
    c: Framebuffer,
    p1: spec_fn(int, int) -> Option<u32>,
    p2: spec_fn(int, int) -> Option<u32>,
)
    requires
        repainted(a, b, p1),
        repainted(b, c, p2),
    ensures
        repainted(a, c, overlay(p1, p2)),
{
    assert forall|x: int, y: int| 0 <= x < a.stride() && 0 <= y < a.height implies
        #[trigger] c.pixel(x, y) == (if x < a.width && overlay(p1, p2)(x, y) is Some {
            overlay(p1, p2)(x, y)->0
        } else {
            a.pixel(x, y)
        }) by {
        assert(b.pixel(x, y) == (if x < a.width && p1(x, y) is Some { p1(x, y)->0 } else { a.pixel(x, y) }));
        assert(c.pixel(x, y) == (if x < a.width && p2(x, y) is Some { p2(x, y)->0 } else { b.pixel(x, y) }));
    }
}

/// Every visible pixel `(x, y)` whose color was `c` takes color `t(x, y, c)`;
/// every other pixel of the buffer keeps its value.
pub open spec fn recolored(old_fb: Framebuffer, new_fb: Framebuffer, t: spec_fn(int, int, u32) -> u32) -> bool {
    &&& new_fb.width == old_fb.width
    &&& new_fb.height == old_fb.height
    &&& new_fb.pitch == old_fb.pitch
    &&& new_fb.bpp == old_fb.bpp
    &&& new_fb.back_buffer@.len() == old_fb.back_buffer@.len()
    &&& forall|x: int, y: int|
        0 <= x < old_fb.stride() && 0 <= y < old_fb.height ==> #[trigger] new_fb.pixel(x, y) == (
        if x < old_fb.width { t(x, y, old_fb.pixel(x, y)) } else { old_fb.pixel(x, y) })
}

/// Repainting by `p` as a recoloring.
pub open spec fn paint_step(p: spec_fn(int, int) -> Option<u32>) -> spec_fn(int, int, u32) -> u32 {
    |x: int, y: int, c: u32| if p(x, y) is Some { p(x, y)->0 } else { c }
}

/// Recoloring by `t1` and then by `t2`.
pub open spec fn then_step(t1: spec_fn(int, int, u32) -> u32, t2: spec_fn(int, int, u32) -> u32) -> spec_fn(int, int, u32) -> u32 {
    |x: int, y: int, c: u32| t2(x, y, t1(x, y, c))
}

/// A repainting is a recoloring.
pub proof fn lemma_repainted_recolored(a: Framebuffer, b: Framebuffer, p: spec_fn(int, int) -> Option<u32>)
    requires
        repainted(a, b, p),
    ensures
        recolored(a, b, paint_step(p)),
{
    assert forall|x: int, y: int| 0 <= x < a.stride() && 0 <= y < a.height implies
        #[trigger] b.pixel(x, y) == (if x < a.width { paint_step(p)(x, y, a.pixel(x, y)) } else { a.pixel(x, y) }) by {
        assert(b.pixel(x, y) == (if x < a.width && p(x, y) is Some { p(x, y)->0 } else { a.pixel(x, y) }));
    }
}

/// Recoloring by `t1` and then by `t2` is recoloring by both in turn.
pub proof fn lemma_recolored_compose(
    a: Framebuffer,
    b: Framebuffer,
    c: Framebuffer,
    t1: spec_fn(int, int, u32) -> u32,
    t2: spec_fn(int, int, u32) -> u32,
)
    requires
        recolored(a, b, t1),
        recolored(b, c, t2),
    ensures
        recolored(a, c, then_step(t1, t2)),
{
    assert forall|x: int, y: int| 0 <= x < a.stride() && 0 <= y < a.height implies
        #[trigger] c.pixel(x, y) == (if x < a.width { then_step(t1, t2)(x, y, a.pixel(x, y)) } else { a.pixel(x, y) }) by {
        assert(b.pixel(x, y) == (if x < a.width { t1(x, y, a.pixel(x, y)) } else { a.pixel(x, y) }));
        assert(c.pixel(x, y) == (if x < a.width { t2(x, y, b.pixel(x, y)) } else { b.pixel(x, y) }));
    }
}

/// A 0x00RRGGBB color with each of its three channels halved (rounding down).
pub open spec fn halved(c: u32) -> u32 {
    ((((c >> 16u32) & 0xFF) / 2) << 16u32) | ((((c >> 8u32) & 0xFF) / 2) << 8u32) | ((c & 0xFF) / 2)
}

/// Darkening every pixel to half its brightness.
pub open spec fn dim_step() -> spec_fn(int, int, u32) -> u32 {
    |x: int, y: int, c: u32| halved(c)
}

impl Framebuffer {
    /// Darken every visible pixel to half its brightness (each channel halved).
    pub fn dim(&mut self)
        requires
            old(self).wf(),
        ensures
            final(self).wf(),
            recolored(*old(self), *final(self), dim_step()),
    {
        let ghost o = *self;
        let mut py: usize = 0;
        while py < self.height
            invariant
                self.wf(),
                self.width == o.width,
                self.height == o.height,
                self.pitch == o.pitch,
                self.bpp == o.bpp,
                self.back_buffer@.len() == o.back_buffer@.len(),
                py <= o.height,
                forall|x: int, y: int|
                    0 <= x < o.stride() && 0 <= y < o.height ==> #[trigger] self.pixel(x, y) == (
                    if y < py && x < o.width { halved(o.pixel(x, y)) } else { o.pixel(x, y) }),
            decreases o.height - py,
        {
            let mut px: usize = 0;
            while px < self.width
                invariant
                    self.wf(),
                    self.width == o.width,
                    self.height == o.height,
                    self.pitch == o.pitch,
                    self.bpp == o.bpp,
                    self.back_buffer@.len() == o.back_buffer@.len(),
                    py < o.height,
                    px <= o.width,
                    forall|x: int, y: int|
                        0 <= x < o.stride() && 0 <= y < o.height ==> #[trigger] self.pixel(x, y) == (
                        if (y < py || (y == py && x < px)) && x < o.width { halved(o.pixel(x, y)) } else { o.pixel(x, y) }),
                decreases o.width - px,
            {
                let c = self.get_pixel(px, py);
                let d = (((c >> 16) & 0xFF) / 2) << 16 | (((c >> 8) & 0xFF) / 2) << 8 | (c & 0xFF) / 2;
                let ghost before = *self;
                self.write(px, py, d);
                proof {
                    assert forall|x: int, y: int| 0 <= x < o.stride() && 0 <= y < o.height implies
                        #[trigger] self.pixel(x, y) == (
                        if (y < py || (y == py && x < px + 1)) && x < o.width { halved(o.pixel(x, y)) } else { o.pixel(x, y) }) by {
                        assert(self.pixel(x, y) == (if x < before.width && solid_rect(px as int, py as int, px + 1, py + 1, d)(x, y) is Some {
                            solid_rect(px as int, py as int, px + 1, py + 1, d)(x, y)->0
                        } else {
                            before.pixel(x, y)
                        }));
                    }
                }
                px += 1;
            }
            py += 1;
        }
    }
}

/// Display mode reported by the bootloader: width, height, pitch (bytes per row), bits per pixel.
#[derive(Debug, Clone, Copy, PartialEq, Eq, Structural)]
pub struct DisplayMode {
    pub width: usize,
    pub height: usize,
    pub pitch: usize,
    pub bpp: u16,
}

impl Framebuffer {
    /// Create the framebuffer for the bootloader's first display, with a zeroed
    /// back buffer of `pitch / 4` pixels per row; `None` without a display or
    /// for a mode whose visible width exceeds its row stride or whose buffer
    /// cannot be sized.
    pub fn from_limine(mode: Option<DisplayMode>) -> (r: Option<Framebuffer>)
        ensures
            mode is None ==> r is None,
            mode matches Some(m) ==> (r is Some <==> (m.width <= m.pitch / 4 && (m.pitch / 4) * m.height <= usize::MAX)),
            r matches Some(fb) ==> (mode matches Some(m) && fb.wf() && fb.width == m.width && fb.height == m.height
                && fb.pitch == m.pitch && fb.bpp == m.bpp
                && forall|i: int| 0 <= i < fb.back_buffer@.len() ==> fb.back_buffer@[i] == 0),
    {
        match mode {
            Some(m) => Framebuffer::new(m.width, m.height, m.pitch, m.bpp),
            None => None,
        }
    }
}

/// Initialize the global framebuffer from the bootloader's display; its size on success.
pub fn init(slot: &mut Option<Framebuffer>, mode: Option<DisplayMode>) -> (r: Option<(usize, usize)>)
    ensures
        r is Some ==> (*final(slot) matches Some(fb) && fb.wf() && r == Some((fb.width, fb.height))
            && (mode matches Some(m) && fb.width == m.width && fb.height == m.height && fb.pitch == m.pitch
            && fb.bpp == m.bpp) && forall|i: int| 0 <= i < fb.back_buffer@.len() ==> fb.back_buffer@[i] == 0),
        r is None ==> *final(slot) == *old(slot),
        r is Some <==> (mode matches Some(m) && m.width <= m.pitch / 4 && (m.pitch / 4) * m.height <= usize::MAX),
{
    match Framebuffer::from_limine(mode) {
        Some(fb) => {
            let dims = (fb.width, fb.height);
            *slot = Some(fb);
            Some(dims)
        },
        None => None,
    }
}

/// Pack RGB values into a 32-bit color.
pub fn rgb(r: u8, g: u8, b: u8) -> (c: u32)
    ensures
        c == r as int * 65536 + g as int * 256 + b as int,
{
    let c = ((r as u32) << 16) | ((g as u32) << 8) | (b as u32);
    assert(c == r as int * 65536 + g as int * 256 + b as int) by (bit_vector)
        requires
            c == ((r as u32) << 16) | ((g as u32) << 8) | (b as u32),
    ;
    c
}

proof fn lemma_mul_exceeds(a: int, b: int)
    requires
        b > 0,
        a > usize::MAX as int / b,
    ensures
        a * b > usize::MAX,
{
    assert(a * b > usize::MAX) by (nonlinear_arith)
        requires
            b > 0,
            a > usize::MAX as int / b,
    ;
}

proof fn lemma_mul_within(a: int, b: int)
    requires
        b > 0,
        0 <= a <= usize::MAX as int / b,
    ensures
        a * b <= usize::MAX,
{
    assert(a * b <= usize::MAX) by (nonlinear_arith)
        requires
            b > 0,
            0 <= a <= usize::MAX as int / b,
    ;
}

/// A visible pixel's index lies within the buffer.
pub proof fn lemma_index_in_bounds(stride: int, height: int, x: int, y: int)
    requires
        0 <= x < stride,
        0 <= y < height,
    ensures
        0 <= pixel_index(stride, x, y) < stride * height,
        pixel_index(stride, x, y) + 1 <= stride * height,
{
    assert(0 <= y * stride + x < stride * height) by (nonlinear_arith)
        requires
            0 <= x < stride,
            0 <= y < height,
    ;
}

/// Distinct pixels have distinct indices.
pub proof fn lemma_index_injective(stride: int, x1: int, y1: int, x2: int, y2: int)
    requires
        0 <= x1 < stride,
        0 <= x2 < stride,
        x1 != x2 || y1 != y2,
    ensures
        pixel_index(stride, x1, y1) != pixel_index(stride, x2, y2),
{
    assert(y1 * stride + x1 != y2 * stride + x2) by (nonlinear_arith)
        requires
            0 <= x1 < stride,
            0 <= x2 < stride,
            x1 != x2 || y1 != y2,
    ;
}

proof fn lemma_visible_count(w: int, stride: int, h: int)
    requires
        0 <= w <= stride,
        0 <= h,
        stride * h <= usize::MAX,
    ensures
        w * h <= stride * h,
{
    assert(w * h <= stride * h) by (nonlinear_arith)
        requires
            0 <= w <= stride,
            0 <= h,
    ;
}

} // verus!
