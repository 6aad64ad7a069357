//! Integer set-up of a screen triangle for the tile rasterizer: the pixel
//! bounding box and the edge functions `A*x + B*y + C`, on 28.4 fixed-point
//! vertex positions, oriented so the inside of the triangle is positive.

use vstd::prelude::*;

verus! {

/// Fractional bits of the fixed-point vertex positions.
pub const FP_BITS: i32 = 4;
/// One pixel in fixed point.
pub const FP_ONE: i32 = 16;

/// Edge functions and bounding box of a non-degenerate screen triangle.
#[derive(Debug, Clone, Copy, PartialEq, Eq, Structural)]
pub struct EdgeSetup {
    pub a12: i32,
    pub b12: i32,
    pub c12: i64,
    pub a20: i32,
    pub b20: i32,
    pub c20: i64,
    pub a01: i32,
    pub b01: i32,
    pub c01: i64,
    pub min_x: i32,
    pub max_x: i32,
    pub min_y: i32,
    pub max_y: i32,
    /// Twice the triangle's area in fixed-point units (positive).
    pub area: i64,
    /// The vertices were given clockwise (the edges were flipped).
    pub is_cw: bool,
}

/// Fixed-point coordinates this set-up handles without overflow.
pub open spec fn coord_ok(v: i32) -> bool {
    -0x4000_0000 <= v < 0x4000_0000
}

/// Floor of `v / 16` (an arithmetic shift by the fractional bits).
pub open spec fn to_pixel(v: int) -> int {
    v / 16
}

pub open spec fn min3(a: int, b: int, c: int) -> int {
    if a <= b && a <= c { a } else if b <= c { b } else { c }
}

pub open spec fn max3(a: int, b: int, c: int) -> int {
    if a >= b && a >= c { a } else if b >= c { b } else { c }
}

/// Twice the signed area of the triangle (positive when counter-clockwise in
/// screen space, as the rasterizer counts it).
pub open spec fn signed_area(x0: int, y0: int, x1: int, y1: int, x2: int, y2: int) -> int {
    (y0 - y1) * x2 + (x1 - x0) * y2 + x0 * y1 - y0 * x1
}

/// Value of an edge function at a point.
pub open spec fn edge_at(a: int, b: int, c: int, x: int, y: int) -> int {
    a * x + b * y + c
}

/// Floor division of a fixed-point coordinate by 16.
fn pixel_of(v: i32) -> (r: i32)
    ensures
        r == to_pixel(v as int),
{
    let r = v >> 4i32;
    assert(r == v / 16) by (bit_vector)
        requires
            r == v >> 4i32,
    ;
    r
}

/// Pixel box of the triangle clamped to the screen: (min_x, max_x, min_y, max_y).
pub open spec fn pixel_box(x0: int, y0: int, x1: int, y1: int, x2: int, y2: int, fb_width: int, fb_height: int) -> (int, int, int, int) {
    let lo_x = to_pixel(min3(x0, x1, x2));
    let hi_x = to_pixel(max3(x0, x1, x2) + 15);
    let lo_y = to_pixel(min3(y0, y1, y2));
    let hi_y = to_pixel(max3(y0, y1, y2) + 15);
    (
        if lo_x > 0 { lo_x } else { 0 },
        if hi_x < fb_width - 1 { hi_x } else { fb_width - 1 },
        if lo_y > 0 { lo_y } else { 0 },
        if hi_y < fb_height - 1 { hi_y } else { fb_height - 1 },
    )
}

/// The pixel range `[lo, hi]` on one axis covers the three fixed-point
/// coordinates `a`, `b`, `c` on a screen of `size` pixels: `lo` is the
/// pixel of the smallest coordinate, or 0 when that lies left of (or above)
/// the screen; `hi` is the pixel reached by rounding the largest coordinate
/// up, or the last pixel `size - 1` when that lies beyond the screen.
pub open spec fn covers_axis(lo: int, hi: int, a: int, b: int, c: int, size: int) -> bool {
    &&& lo >= 0
    &&& (lo == 0 || lo == a / 16 || lo == b / 16 || lo == c / 16)
    &&& (lo <= a / 16 || lo == 0) && (lo <= b / 16 || lo == 0) && (lo <= c / 16 || lo == 0)
    &&& (lo == 0 ==> a / 16 <= 0 || b / 16 <= 0 || c / 16 <= 0)
    &&& hi <= size - 1
    &&& (hi == size - 1 || hi == (a + 15) / 16 || hi == (b + 15) / 16 || hi == (c + 15) / 16)
    &&& ((a + 15) / 16 <= hi || hi == size - 1) && ((b + 15) / 16 <= hi || hi == size - 1)
        && ((c + 15) / 16 <= hi || hi == size - 1)
    &&& (hi == size - 1 ==> (a + 15) / 16 >= size - 1 || (b + 15) / 16 >= size - 1 || (c + 15) / 16 >= size - 1)
}

/// The triangle's pixel box holds all three vertices: on each axis it runs
/// from the pixel of the smallest vertex coordinate (but not left of or above
/// the screen) to the pixel reached by rounding the largest one up (but not
/// past the screen's last pixel).
pub proof fn lemma_pixel_box_holds_vertices(x0: int, y0: int, x1: int, y1: int, x2: int, y2: int, fb_width: int, fb_height: int)
    ensures
        ({
            let b = pixel_box(x0, y0, x1, y1, x2, y2, fb_width, fb_height);
            &&& covers_axis(b.0, b.1, x0, x1, x2, fb_width)
            &&& covers_axis(b.2, b.3, y0, y1, y2, fb_height)
        }),
{
    lemma_pixel_monotone(x0, x1, x2);
    lemma_pixel_monotone(y0, y1, y2);
}

/// Pixels are monotone in the coordinate: a smaller coordinate never lies in
/// a later pixel, before or after rounding up.
proof fn lemma_pixel_monotone(a: int, b: int, c: int)
    ensures
        a <= b ==> a / 16 <= b / 16 && (a + 15) / 16 <= (b + 15) / 16,
        b <= c ==> b / 16 <= c / 16 && (b + 15) / 16 <= (c + 15) / 16,
        a <= c ==> a / 16 <= c / 16 && (a + 15) / 16 <= (c + 15) / 16,
        b <= a ==> b / 16 <= a / 16 && (b + 15) / 16 <= (a + 15) / 16,
        c <= b ==> c / 16 <= b / 16 && (c + 15) / 16 <= (b + 15) / 16,
        c <= a ==> c / 16 <= a / 16 && (c + 15) / 16 <= (a + 15) / 16,
{
}

/// The clamped pixel box of the triangle.
fn bounding_box(x0: i32, y0: i32, x1: i32, y1: i32, x2: i32, y2: i32, fb_width: i32, fb_height: i32) -> (r: (i32, i32, i32, i32))
    requires
        coord_ok(x0) && coord_ok(y0) && coord_ok(x1) && coord_ok(y1) && coord_ok(x2) && coord_ok(y2),
        fb_width > i32::MIN,
        fb_height > i32::MIN,
    ensures
        (r.0 as int, r.1 as int, r.2 as int, r.3 as int) == pixel_box(
            x0 as int, y0 as int, x1 as int, y1 as int, x2 as int, y2 as int, fb_width as int, fb_height as int),
{
    let lo_x = if x0 <= x1 && x0 <= x2 { x0 } else if x1 <= x2 { x1 } else { x2 };
    let hi_x = if x0 >= x1 && x0 >= x2 { x0 } else if x1 >= x2 { x1 } else { x2 };
    let lo_y = if y0 <= y1 && y0 <= y2 { y0 } else if y1 <= y2 { y1 } else { y2 };
    let hi_y = if y0 >= y1 && y0 >= y2 { y0 } else if y1 >= y2 { y1 } else { y2 };
    let px_lo_x = pixel_of(lo_x);
    let px_hi_x = pixel_of(hi_x + FP_ONE - 1);
    let px_lo_y = pixel_of(lo_y);
    let px_hi_y = pixel_of(hi_y + FP_ONE - 1);
    let min_x = if px_lo_x > 0 { px_lo_x } else { 0 };
    let max_x = if px_hi_x < fb_width - 1 { px_hi_x } else { fb_width - 1 };
    let min_y = if px_lo_y > 0 { px_lo_y } else { 0 };
    let max_y = if px_hi_y < fb_height - 1 { px_hi_y } else { fb_height - 1 };
    (min_x, max_x, min_y, max_y)
}

/// The edge coefficients of a triangle with non-zero doubled area `area`,
/// flipped when `area < 0` so that the inside is positive.
pub open spec fn oriented(e: EdgeSetup, x0: int, y0: int, x1: int, y1: int, x2: int, y2: int) -> bool {
    let area = signed_area(x0, y0, x1, y1, x2, y2);
    let cw = area < 0;
    &&& e.is_cw == cw
    &&& e.area == flip(cw, area)
    &&& e.a12 == flip(cw, y1 - y2) && e.b12 == flip(cw, x2 - x1) && e.c12 == flip(cw, x1 * y2 - y1 * x2)
    &&& e.a20 == flip(cw, y2 - y0) && e.b20 == flip(cw, x0 - x2) && e.c20 == flip(cw, x2 * y0 - y2 * x0)
    &&& e.a01 == flip(cw, y0 - y1) && e.b01 == flip(cw, x1 - x0) && e.c01 == flip(cw, x0 * y1 - y0 * x1)
}

/// `v`, negated when `neg`.
pub open spec fn flip(neg: bool, v: int) -> int {
    if neg { -v } else { v }
}

/// Set up the triangle with fixed-point vertices (x0, y0), (x1, y1), (x2, y2)
/// on a `fb_width` x `fb_height` screen: `None` when its clamped pixel box is
/// empty or it has no area; otherwise the box and the edge functions, flipped
/// for a clockwise triangle so that inside points make all three non-negative.
pub fn setup_edges(x0: i32, y0: i32, x1: i32, y1: i32, x2: i32, y2: i32, fb_width: i32, fb_height: i32) -> (r: Option<EdgeSetup>)
    requires
        coord_ok(x0) && coord_ok(y0) && coord_ok(x1) && coord_ok(y1) && coord_ok(x2) && coord_ok(y2),
        fb_width > i32::MIN,
        fb_height > i32::MIN,
    ensures
        ({
            let b = pixel_box(x0 as int, y0 as int, x1 as int, y1 as int, x2 as int, y2 as int, fb_width as int, fb_height as int);
            let area = signed_area(x0 as int, y0 as int, x1 as int, y1 as int, x2 as int, y2 as int);
            if b.0 > b.1 || b.2 > b.3 || area == 0 {
                r is None
            } else {
                r matches Some(e) && e.min_x == b.0 && e.max_x == b.1 && e.min_y == b.2 && e.max_y == b.3
                    && oriented(e, x0 as int, y0 as int, x1 as int, y1 as int, x2 as int, y2 as int)
            }
        }),
        r matches Some(e) ==> edge_constants_ok(e),
        r matches Some(e) ==> covers_axis(e.min_x as int, e.max_x as int, x0 as int, x1 as int, x2 as int, fb_width as int)
            && covers_axis(e.min_y as int, e.max_y as int, y0 as int, y1 as int, y2 as int, fb_height as int),
        r matches Some(e) ==> edges_fit(e, x0 as int, y0 as int, x1 as int, y1 as int, x2 as int, y2 as int),
{
    proof {
        lemma_pixel_box_holds_vertices(x0 as int, y0 as int, x1 as int, y1 as int, x2 as int, y2 as int,
            fb_width as int, fb_height as int);
        lemma_product_bound(x1 as int, y2 as int, 0x4000_0000, 0x4000_0000);
        lemma_product_bound(y1 as int, x2 as int, 0x4000_0000, 0x4000_0000);
        lemma_product_bound(x2 as int, y0 as int, 0x4000_0000, 0x4000_0000);
        lemma_product_bound(y2 as int, x0 as int, 0x4000_0000, 0x4000_0000);
        lemma_product_bound(x0 as int, y1 as int, 0x4000_0000, 0x4000_0000);
        lemma_product_bound(y0 as int, x1 as int, 0x4000_0000, 0x4000_0000);
    }
    let (min_x, max_x, min_y, max_y) = bounding_box(x0, y0, x1, y1, x2, y2, fb_width, fb_height);
    if min_x > max_x || min_y > max_y {
        return None;
    }
    match orient_edges(x0, y0, x1, y1, x2, y2) {
        Some(e) => {
            let r = EdgeSetup { min_x, max_x, min_y, max_y, ..e };
            proof {
                lemma_oriented_edges_fit(r, x0 as int, y0 as int, x1 as int, y1 as int, x2 as int, y2 as int);
            }
            Some(r)
        },
        None => None,
    }
}

/// The oriented edge functions of the triangle (box left at 0), `None` when it has no area.
fn orient_edges(x0: i32, y0: i32, x1: i32, y1: i32, x2: i32, y2: i32) -> (r: Option<EdgeSetup>)
    requires
        coord_ok(x0) && coord_ok(y0) && coord_ok(x1) && coord_ok(y1) && coord_ok(x2) && coord_ok(y2),
    ensures
        signed_area(x0 as int, y0 as int, x1 as int, y1 as int, x2 as int, y2 as int) == 0 ==> r is None,
        signed_area(x0 as int, y0 as int, x1 as int, y1 as int, x2 as int, y2 as int) != 0 ==> (r matches Some(e)
            && oriented(e, x0 as int, y0 as int, x1 as int, y1 as int, x2 as int, y2 as int)),
{
    let a12 = y1 - y2;
    let b12 = x2 - x1;
    let a20 = y2 - y0;
    let b20 = x0 - x2;
    let a01 = y0 - y1;
    let b01 = x1 - x0;
    proof {
        lemma_product_bound(a01 as int, x2 as int, 0x8000_0000, 0x4000_0000);
        lemma_product_bound(b01 as int, y2 as int, 0x8000_0000, 0x4000_0000);
        lemma_product_bound(x0 as int, y1 as int, 0x4000_0000, 0x4000_0000);
        lemma_product_bound(y0 as int, x1 as int, 0x4000_0000, 0x4000_0000);
        lemma_product_bound(x1 as int, y2 as int, 0x4000_0000, 0x4000_0000);
        lemma_product_bound(y1 as int, x2 as int, 0x4000_0000, 0x4000_0000);
        lemma_product_bound(x2 as int, y0 as int, 0x4000_0000, 0x4000_0000);
        lemma_product_bound(y2 as int, x0 as int, 0x4000_0000, 0x4000_0000);
    }
    let p1 = (a01 as i64) * (x2 as i64);
    let p2 = (b01 as i64) * (y2 as i64);
    let p3 = (x0 as i64) * (y1 as i64);
    let p4 = (y0 as i64) * (x1 as i64);
    let area = p1 + p2 + p3 - p4;
    if area == 0 {
        return None;
    }
    let q1 = (x1 as i64) * (y2 as i64);
    let q2 = (y1 as i64) * (x2 as i64);
    let q3 = (x2 as i64) * (y0 as i64);
    let q4 = (y2 as i64) * (x0 as i64);
    let c12 = q1 - q2;
    let c20 = q3 - q4;
    let c01 = p3 - p4;
    assert(area == signed_area(x0 as int, y0 as int, x1 as int, y1 as int, x2 as int, y2 as int));
    if area < 0 {
        Some(EdgeSetup {
            a12: -a12,
            b12: -b12,
            c12: -c12,
            a20: -a20,
            b20: -b20,
            c20: -c20,
            a01: -a01,
            b01: -b01,
            c01: -c01,
            min_x: 0,
            max_x: 0,
            min_y: 0,
            max_y: 0,
            area: -area,
            is_cw: true,
        })
    } else {
        Some(EdgeSetup {
            a12,
            b12,
            c12,
            a20,
            b20,
            c20,
            a01,
            b01,
            c01,
            min_x: 0,
            max_x: 0,
            min_y: 0,
            max_y: 0,
            area,
            is_cw: false,
        })
    }
}

/// The oriented edge functions vanish on their own edge and equal the doubled
/// area, with the orientation's sign, at the opposite vertex: for the winding
/// `setup_edges` picks (`cw` exactly when the area is negative) that value is
/// positive, so the inside of the triangle is where all three are non-negative.
pub proof fn lemma_edges_oriented(x0: int, y0: int, x1: int, y1: int, x2: int, y2: int, cw: bool)
    ensures
        edge_at(flip(cw, y1 - y2), flip(cw, x2 - x1), flip(cw, x1 * y2 - y1 * x2), x1, y1) == 0,
        edge_at(flip(cw, y1 - y2), flip(cw, x2 - x1), flip(cw, x1 * y2 - y1 * x2), x2, y2) == 0,
        edge_at(flip(cw, y1 - y2), flip(cw, x2 - x1), flip(cw, x1 * y2 - y1 * x2), x0, y0)
            == flip(cw, signed_area(x0, y0, x1, y1, x2, y2)),
        edge_at(flip(cw, y2 - y0), flip(cw, x0 - x2), flip(cw, x2 * y0 - y2 * x0), x1, y1)
            == flip(cw, signed_area(x0, y0, x1, y1, x2, y2)),
        edge_at(flip(cw, y0 - y1), flip(cw, x1 - x0), flip(cw, x0 * y1 - y0 * x1), x2, y2)
            == flip(cw, signed_area(x0, y0, x1, y1, x2, y2)),
{
    let s: int = if cw { -1 } else { 1 };
    lemma_scaled_edge(y1 - y2, x2 - x1, x1 * y2 - y1 * x2, x1, y1, s);
    lemma_scaled_edge(y1 - y2, x2 - x1, x1 * y2 - y1 * x2, x2, y2, s);
    lemma_scaled_edge(y1 - y2, x2 - x1, x1 * y2 - y1 * x2, x0, y0, s);
    lemma_scaled_edge(y2 - y0, x0 - x2, x2 * y0 - y2 * x0, x1, y1, s);
    lemma_scaled_edge(y0 - y1, x1 - x0, x0 * y1 - y0 * x1, x2, y2, s);
    assert((y1 - y2) * x1 + (x2 - x1) * y1 + (x1 * y2 - y1 * x2) == 0) by (nonlinear_arith);
    assert((y1 - y2) * x2 + (x2 - x1) * y2 + (x1 * y2 - y1 * x2) == 0) by (nonlinear_arith);
    assert((y1 - y2) * x0 + (x2 - x1) * y0 + (x1 * y2 - y1 * x2) == (y0 - y1) * x2 + (x1 - x0) * y2 + x0 * y1 - y0 * x1)
        by (nonlinear_arith);
    assert((y2 - y0) * x1 + (x0 - x2) * y1 + (x2 * y0 - y2 * x0) == (y0 - y1) * x2 + (x1 - x0) * y2 + x0 * y1 - y0 * x1)
        by (nonlinear_arith);
    assert((y0 - y1) * x2 + (x1 - x0) * y2 + (x0 * y1 - y0 * x1) == (y0 - y1) * x2 + (x1 - x0) * y2 + x0 * y1 - y0 * x1)
        by (nonlinear_arith);
    assert forall|v: int| #[trigger] flip(cw, v) == s * v by {}
}

/// The three edge functions of `e` fit the triangle: each is zero at the two
/// vertices of its own edge (edge 12 at vertices 1 and 2, edge 20 at 2 and 0,
/// edge 01 at 0 and 1) and equals the positive doubled area at the opposite
/// vertex, so inside points make all three non-negative.
pub open spec fn edges_fit(e: EdgeSetup, x0: int, y0: int, x1: int, y1: int, x2: int, y2: int) -> bool {
    &&& e.area > 0
    &&& edge_at(e.a12 as int, e.b12 as int, e.c12 as int, x1, y1) == 0
    &&& edge_at(e.a12 as int, e.b12 as int, e.c12 as int, x2, y2) == 0
    &&& edge_at(e.a12 as int, e.b12 as int, e.c12 as int, x0, y0) == e.area
    &&& edge_at(e.a20 as int, e.b20 as int, e.c20 as int, x2, y2) == 0
    &&& edge_at(e.a20 as int, e.b20 as int, e.c20 as int, x0, y0) == 0
    &&& edge_at(e.a20 as int, e.b20 as int, e.c20 as int, x1, y1) == e.area
    &&& edge_at(e.a01 as int, e.b01 as int, e.c01 as int, x0, y0) == 0
    &&& edge_at(e.a01 as int, e.b01 as int, e.c01 as int, x1, y1) == 0
    &&& edge_at(e.a01 as int, e.b01 as int, e.c01 as int, x2, y2) == e.area
}

/// Set-up edges fit their triangle: whenever the coefficients are oriented
/// for a triangle with area, each edge function vanishes on its own edge and
/// equals the (positive) doubled area at the opposite vertex.
pub proof fn lemma_oriented_edges_fit(e: EdgeSetup, x0: int, y0: int, x1: int, y1: int, x2: int, y2: int)
    requires
        oriented(e, x0, y0, x1, y1, x2, y2),
        signed_area(x0, y0, x1, y1, x2, y2) != 0,
    ensures
        edges_fit(e, x0, y0, x1, y1, x2, y2),
{
    let cw = signed_area(x0, y0, x1, y1, x2, y2) < 0;
    lemma_edges_oriented(x0, y0, x1, y1, x2, y2, cw);
    lemma_edges_oriented(x1, y1, x2, y2, x0, y0, cw);
    lemma_edges_oriented(x2, y2, x0, y0, x1, y1, cw);
    assert(signed_area(x1, y1, x2, y2, x0, y0) == signed_area(x0, y0, x1, y1, x2, y2)) by (nonlinear_arith);
    assert(signed_area(x2, y2, x0, y0, x1, y1) == signed_area(x0, y0, x1, y1, x2, y2)) by (nonlinear_arith);
}

/// Fixed-point position of the center of pixel column or row `p`.
pub open spec fn pixel_center(p: int) -> int {
    p * 16 + 8
}

/// All four corner pixel centers of the block spanning columns `bx..bx+size-1`
/// and rows `by..by+size-1` lie strictly outside the edge `a*x + b*y + c`.
pub open spec fn block_outside_edge(a: int, b: int, c: int, bx: int, by: int, size: int) -> bool {
    let x0 = pixel_center(bx);
    let x1 = pixel_center(bx + size - 1);
    let y0 = pixel_center(by);
    let y1 = pixel_center(by + size - 1);
    &&& edge_at(a, b, c, x0, y0) < 0
    &&& edge_at(a, b, c, x1, y0) < 0
    &&& edge_at(a, b, c, x0, y1) < 0
    &&& edge_at(a, b, c, x1, y1) < 0
}

/// Whether the triangle's edge constants are small enough for block tests
/// (those of `setup_edges` are).
pub open spec fn edge_constants_ok(e: EdgeSetup) -> bool {
    &&& -0x2000_0000_0000_0000 <= e.c12 <= 0x2000_0000_0000_0000
    &&& -0x2000_0000_0000_0000 <= e.c20 <= 0x2000_0000_0000_0000
    &&& -0x2000_0000_0000_0000 <= e.c01 <= 0x2000_0000_0000_0000
}

/// Value of one edge at a block corner, without overflow.
fn corner_value(a: i32, b: i32, c: i64, x: i32, y: i32) -> (r: i64)
    requires
        -0x2000_0000_0000_0000 <= c <= 0x2000_0000_0000_0000,
        0 <= x < 0x2000_0000,
        0 <= y < 0x2000_0000,
    ensures
        r == edge_at(a as int, b as int, c as int, x as int, y as int),
{
    proof {
        lemma_product_bound(a as int, x as int, 0x8000_0000, 0x2000_0000);
        lemma_product_bound(b as int, y as int, 0x8000_0000, 0x2000_0000);
    }
    (a as i64) * (x as i64) + (b as i64) * (y as i64) + c
}

/// Conservative block test of the tile rasterizer: `false` when the block
/// spanning columns `bx..bx+block_size-1` and rows `by..by+block_size-1` lies
/// wholly outside one of the triangle's edges (all four corner pixel centers
/// outside it), so none of its pixels can be covered; `true` otherwise.
pub fn block_intersects_triangle(e: &EdgeSetup, bx: i32, by: i32, block_size: i32) -> (r: bool)
    requires
        edge_constants_ok(*e),
        0 <= bx,
        0 <= by,
        1 <= block_size,
        bx + block_size <= 0x200_0000,
        by + block_size <= 0x200_0000,
    ensures
        r == !(block_outside_edge(e.a12 as int, e.b12 as int, e.c12 as int, bx as int, by as int, block_size as int)
            || block_outside_edge(e.a20 as int, e.b20 as int, e.c20 as int, bx as int, by as int, block_size as int)
            || block_outside_edge(e.a01 as int, e.b01 as int, e.c01 as int, bx as int, by as int, block_size as int)),
{
    let x0 = bx * FP_ONE + FP_ONE / 2;
    let y0 = by * FP_ONE + FP_ONE / 2;
    let x1 = (bx + block_size - 1) * FP_ONE + FP_ONE / 2;
    let y2 = (by + block_size - 1) * FP_ONE + FP_ONE / 2;

    let w0_tl = corner_value(e.a12, e.b12, e.c12, x0, y0);
    let w0_tr = corner_value(e.a12, e.b12, e.c12, x1, y0);
    let w0_bl = corner_value(e.a12, e.b12, e.c12, x0, y2);
    let w0_br = corner_value(e.a12, e.b12, e.c12, x1, y2);
    if w0_tl < 0 && w0_tr < 0 && w0_bl < 0 && w0_br < 0 {
        return false;
    }

    let w1_tl = corner_value(e.a20, e.b20, e.c20, x0, y0);
    let w1_tr = corner_value(e.a20, e.b20, e.c20, x1, y0);
    let w1_bl = corner_value(e.a20, e.b20, e.c20, x0, y2);
    let w1_br = corner_value(e.a20, e.b20, e.c20, x1, y2);
    if w1_tl < 0 && w1_tr < 0 && w1_bl < 0 && w1_br < 0 {
        return false;
    }

    let w2_tl = corner_value(e.a01, e.b01, e.c01, x0, y0);
    let w2_tr = corner_value(e.a01, e.b01, e.c01, x1, y0);
    let w2_bl = corner_value(e.a01, e.b01, e.c01, x0, y2);
    let w2_br = corner_value(e.a01, e.b01, e.c01, x1, y2);
    if w2_tl < 0 && w2_tr < 0 && w2_bl < 0 && w2_br < 0 {
        return false;
    }
    true
}

/// `|a * b| <= ma * mb` when `|a| <= ma` and `|b| <= mb`.
proof fn lemma_product_bound(a: int, b: int, ma: int, mb: int)
    requires
        -ma <= a <= ma,
        -mb <= b <= mb,
        ma >= 0,
        mb >= 0,
    ensures
        -(ma * mb) <= a * b <= ma * mb,
{
    assert(-(ma * mb) <= a * b <= ma * mb) by (nonlinear_arith)
        requires
            -ma <= a <= ma,
            -mb <= b <= mb,
            ma >= 0,
            mb >= 0,
    ;
}

/// Scaling an edge function's coefficients scales its value.
proof fn lemma_scaled_edge(a: int, b: int, c: int, x: int, y: int, s: int)
    ensures
        edge_at(s * a, s * b, s * c, x, y) == s * edge_at(a, b, c, x, y),
{
    assert((s * a) * x + (s * b) * y + s * c == s * (a * x + b * y + c)) by (nonlinear_arith);
}

} // verus!
