use vstd::prelude::*;
use crate::rat::{Rat, spec_rat_le, spec_rat_lt, lemma_mul_abs_bound, lemma_mul_pos};

verus! {

/// Largest denominator accepted for a texture coordinate. Texture coordinates
/// are atlas pixel positions over an atlas dimension, so this bounds the atlas
/// side length; it keeps every intermediate product of the formatter inside
/// `i64`.
pub const MAX_UV_DEN: i64 = 0x2000_0000;

/// An axis-aligned rectangle in whole-pixel screen coordinates.
/// `min` is the top-left corner: pixel `y` grows downward.
#[derive(Clone, Copy, Debug, PartialEq, Eq, Structural)]
pub struct PixelRect {
    pub min_x: i32,
    pub min_y: i32,
    pub max_x: i32,
    pub max_y: i32,
}

/// An axis-aligned rectangle in normalized texture coordinates.
/// Both `x` edges share one denominator, both `y` edges share one: a texture
/// coordinate is an atlas pixel position over the atlas width or height.
#[derive(Clone, Copy, Debug, PartialEq, Eq, Structural)]
pub struct UvRect {
    pub min_x: Rat,
    pub min_y: Rat,
    pub max_x: Rat,
    pub max_y: Rat,
}

impl UvRect {
    pub open spec fn wf(self) -> bool {
        &&& self.min_x.wf()
        &&& self.max_x.wf()
        &&& self.min_y.wf()
        &&& self.max_y.wf()
        &&& self.min_x.den == self.max_x.den
        &&& self.min_y.den == self.max_y.den
        &&& self.min_x.den <= MAX_UV_DEN
        &&& self.min_y.den <= MAX_UV_DEN
        &&& 0 <= self.min_x.num <= self.min_x.den
        &&& 0 <= self.max_x.num <= self.max_x.den
        &&& 0 <= self.min_y.num <= self.min_y.den
        &&& 0 <= self.max_y.num <= self.max_y.den
    }

    /// The normalized UV rectangle of an atlas sub-rectangle given in atlas
    /// pixels, for an atlas of `atlas_w` by `atlas_h` pixels.
    pub fn from_atlas(
        min_x: u32,
        min_y: u32,
        max_x: u32,
        max_y: u32,
        atlas_w: u32,
        atlas_h: u32,
    ) -> (r: UvRect)
        requires
            0 < atlas_w <= MAX_UV_DEN as u32,
            0 < atlas_h <= MAX_UV_DEN as u32,
            min_x <= atlas_w,
            max_x <= atlas_w,
            min_y <= atlas_h,
            max_y <= atlas_h,
        ensures
            r.wf(),
            r.min_x.num == min_x && r.min_x.den == atlas_w,
            r.max_x.num == max_x && r.max_x.den == atlas_w,
            r.min_y.num == min_y && r.min_y.den == atlas_h,
            r.max_y.num == max_y && r.max_y.den == atlas_h,
    {
        UvRect {
            min_x: Rat::new(min_x as i64, atlas_w as i64),
            min_y: Rat::new(min_y as i64, atlas_h as i64),
            max_x: Rat::new(max_x as i64, atlas_w as i64),
            max_y: Rat::new(max_y as i64, atlas_h as i64),
        }
    }
}

/// An RGBA color; each channel is a rational, nominally in `[0, 1]`.
#[derive(Clone, Copy, Debug, PartialEq, Eq, Structural)]
pub struct Color {
    pub r: Rat,
    pub g: Rat,
    pub b: Rat,
    pub a: Rat,
}

impl Color {
    pub open spec fn wf(self) -> bool {
        self.r.wf() && self.g.wf() && self.b.wf() && self.a.wf()
    }
}

/// One resolved glyph instance as the layout engine hands it to the vertex
/// formatter: its texture rectangle in the atlas, its pixel rectangle on
/// screen, the clipping bounds of its section, the screen dimensions, its
/// color and its depth.
#[derive(Clone, Copy, Debug, PartialEq, Eq, Structural)]
pub struct GlyphPlacement {
    pub tex_coords: UvRect,
    pub pixel_coords: PixelRect,
    pub bounds: PixelRect,
    pub screen_w: u32,
    pub screen_h: u32,
    pub color: Color,
    pub z: Rat,
}

impl GlyphPlacement {
    /// Well-formed input for the formatter: a drawable screen, a glyph
    /// rectangle with positive extent on both axes, and normalized texture
    /// coordinates.
    pub open spec fn wf(self) -> bool {
        &&& self.tex_coords.wf()
        &&& self.screen_w > 0
        &&& self.screen_h > 0
        &&& self.pixel_coords.min_x < self.pixel_coords.max_x
        &&& self.pixel_coords.min_y < self.pixel_coords.max_y
        &&& self.color.wf()
        &&& self.z.wf()
    }

    /// Left edge after clamping against the clipping bounds.
    pub open spec fn clamped_min_x(self) -> int {
        clamp_low(self.pixel_coords.min_x as int, self.bounds.min_x as int)
    }

    /// Top edge after clamping against the clipping bounds.
    pub open spec fn clamped_min_y(self) -> int {
        clamp_low(self.pixel_coords.min_y as int, self.bounds.min_y as int)
    }

    /// Right edge after clamping against the clipping bounds.
    pub open spec fn clamped_max_x(self) -> int {
        clamp_high(self.pixel_coords.max_x as int, self.bounds.max_x as int)
    }

    /// Bottom edge after clamping against the clipping bounds.
    pub open spec fn clamped_max_y(self) -> int {
        clamp_high(self.pixel_coords.max_y as int, self.bounds.max_y as int)
    }

    /// The pixel rectangle lies entirely inside the clipping bounds.
    pub open spec fn inside_bounds(self) -> bool {
        &&& self.bounds.min_x <= self.pixel_coords.min_x
        &&& self.pixel_coords.max_x <= self.bounds.max_x
        &&& self.bounds.min_y <= self.pixel_coords.min_y
        &&& self.pixel_coords.max_y <= self.bounds.max_y
    }
}

/// The packed per-instance vertex of one glyph quad. The field order is the
/// device layout: clip-space corner of the pixel-space `min` corner (x), then
/// the clip-space y of the pixel-space `max` corner, depth, and so on; clip
/// `y` decreases downward while pixel `y` increases downward, so
/// `clip_min_y >= clip_max_y` numerically.
#[derive(Clone, Copy, Debug, PartialEq, Eq, Structural)]
pub struct Vertex {
    pub clip_min_x: Rat,
    pub clip_max_y: Rat,
    pub z: Rat,
    pub clip_max_x: Rat,
    pub clip_min_y: Rat,
    pub uv_min_x: Rat,
    pub uv_max_y: Rat,
    pub uv_max_x: Rat,
    pub uv_min_y: Rat,
    pub color: Color,
}

impl Vertex {
    pub open spec fn wf(self) -> bool {
        &&& self.clip_min_x.wf()
        &&& self.clip_max_y.wf()
        &&& self.z.wf()
        &&& self.clip_max_x.wf()
        &&& self.clip_min_y.wf()
        &&& self.uv_min_x.wf()
        &&& self.uv_max_y.wf()
        &&& self.uv_max_x.wf()
        &&& self.uv_min_y.wf()
        &&& self.color.wf()
    }
}

/// Clamp `v` up to the lower bound `b` (used for `min` edges).
pub open spec fn clamp_low(v: int, b: int) -> int {
    if v < b {
        b
    } else {
        v
    }
}

/// Clamp `v` down to the upper bound `b` (used for `max` edges).
pub open spec fn clamp_high(v: int, b: int) -> int {
    if v > b {
        b
    } else {
        v
    }
}

/// Numerator of pixel `x` mapped to clip space, over denominator `w`:
/// `clip_x = 2*(x/w - 1/2) = (2x - w)/w`.
pub open spec fn clip_x_num(x: int, w: int) -> int {
    2 * x - w
}

/// Numerator of pixel `y` mapped to clip space, over denominator `h`:
/// `clip_y = 2*(1/2 - y/h) = (h - 2y)/h`. Pixel `y` grows downward, clip `y`
/// grows upward, hence the flip.
pub open spec fn clip_y_num(y: int, h: int) -> int {
    h - 2 * y
}

/// Numerator of the texture coordinate of screen position `c` under the
/// affine map that sends the pixel span starting at `x0` of width `w` onto
/// the texture span `p/d ..= q/d`; the denominator is `d * w`. Clamping an
/// edge to `c` rescales its texture edge by this map, which preserves the
/// ratio of texture span to pixel span of the visible sub-glyph.
pub open spec fn uv_map_num(p: int, q: int, x0: int, w: int, c: int) -> int {
    p * w + (q - p) * (c - x0)
}

/// The rational `n / d`, assuming both fit in `i64`.
pub open spec fn rat_frac(n: int, d: int) -> Rat {
    Rat { num: n as i64, den: d as i64 }
}

/// The vertex the formatter produces for a placement record: the pixel
/// rectangle is clamped edge-by-edge to the clipping bounds and mapped to
/// clip space; each texture edge whose pixel edge was clamped is moved by the
/// affine pixel-to-texture map of its axis; depth and color pass through.
pub open spec fn vertex_of(gv: GlyphPlacement) -> Vertex {
    let w = gv.screen_w as int;
    let h = gv.screen_h as int;
    let x0 = gv.pixel_coords.min_x as int;
    let x1 = gv.pixel_coords.max_x as int;
    let y0 = gv.pixel_coords.min_y as int;
    let y1 = gv.pixel_coords.max_y as int;
    let px = gv.tex_coords.min_x.num as int;
    let qx = gv.tex_coords.max_x.num as int;
    let dx = gv.tex_coords.min_x.den as int;
    let py = gv.tex_coords.min_y.num as int;
    let qy = gv.tex_coords.max_y.num as int;
    let dy = gv.tex_coords.min_y.den as int;
    Vertex {
        clip_min_x: rat_frac(clip_x_num(gv.clamped_min_x(), w), w),
        clip_max_y: rat_frac(clip_y_num(gv.clamped_max_y(), h), h),
        z: gv.z,
        clip_max_x: rat_frac(clip_x_num(gv.clamped_max_x(), w), w),
        clip_min_y: rat_frac(clip_y_num(gv.clamped_min_y(), h), h),
        uv_min_x: if gv.bounds.min_x as int <= x0 {
            gv.tex_coords.min_x
        } else {
            rat_frac(uv_map_num(px, qx, x0, x1 - x0, gv.clamped_min_x()), dx * (x1 - x0))
        },
        uv_max_y: if y1 <= gv.bounds.max_y as int {
            gv.tex_coords.max_y
        } else {
            rat_frac(uv_map_num(py, qy, y0, y1 - y0, gv.clamped_max_y()), dy * (y1 - y0))
        },
        uv_max_x: if x1 <= gv.bounds.max_x as int {
            gv.tex_coords.max_x
        } else {
            rat_frac(uv_map_num(px, qx, x0, x1 - x0, gv.clamped_max_x()), dx * (x1 - x0))
        },
        uv_min_y: if gv.bounds.min_y as int <= y0 {
            gv.tex_coords.min_y
        } else {
            rat_frac(uv_map_num(py, qy, y0, y1 - y0, gv.clamped_min_y()), dy * (y1 - y0))
        },
        color: gv.color,
    }
}

/// Texture coordinate of screen position `c` under the affine map sending the
/// pixel span `[x0, x0 + w]` onto the texture span `[p/d, q/d]`.
fn uv_edge(p: i64, q: i64, d: i64, x0: i64, w: i64, c: i64) -> (r: Rat)
    requires
        0 < d <= MAX_UV_DEN,
        0 <= p <= d,
        0 <= q <= d,
        0 < w <= 0x1_0000_0000,
        -0x8000_0000 <= x0 <= 0x8000_0000,
        -0x8000_0000 <= c <= 0x8000_0000,
    ensures
        r.num == uv_map_num(p as int, q as int, x0 as int, w as int, c as int),
        r.den == d * w,
        r.wf(),
{
    proof {
        lemma_mul_abs_bound(p as int, w as int, MAX_UV_DEN as int, 0x1_0000_0000);
        lemma_mul_abs_bound((q - p) as int, (c - x0) as int, MAX_UV_DEN as int, 0x1_0000_0000);
        lemma_mul_abs_bound(d as int, w as int, MAX_UV_DEN as int, 0x1_0000_0000);
        lemma_mul_pos(d as int, w as int);
    }
    let num: i128 = (p as i128) * (w as i128) + ((q - p) as i128) * ((c - x0) as i128);
    let den: i128 = (d as i128) * (w as i128);
    Rat { num: num as i64, den: den as i64 }
}

/// The vertex formatter: the pure transform from one glyph placement record
/// to one packed vertex. The pixel rectangle and the clipping bounds are
/// compared edge-by-edge in pixel space (equivalent to comparing in clip
/// space, since the pixel-to-clip maps are strictly monotone); a clamped edge
/// drags its texture edge along the affine pixel-to-texture map of its axis,
/// preserving the aspect of the visible sub-glyph instead of stretching it.
pub fn to_vertex(gv: &GlyphPlacement) -> (v: Vertex)
    requires
        gv.wf(),
    ensures
        v == vertex_of(*gv),
        v.wf(),
{
    let w: i64 = gv.screen_w as i64;
    let h: i64 = gv.screen_h as i64;
    let x0: i64 = gv.pixel_coords.min_x as i64;
    let x1: i64 = gv.pixel_coords.max_x as i64;
    let y0: i64 = gv.pixel_coords.min_y as i64;
    let y1: i64 = gv.pixel_coords.max_y as i64;
    let bx0: i64 = gv.bounds.min_x as i64;
    let bx1: i64 = gv.bounds.max_x as i64;
    let by0: i64 = gv.bounds.min_y as i64;
    let by1: i64 = gv.bounds.max_y as i64;

    let cx0: i64 = if x0 < bx0 { bx0 } else { x0 };
    let cx1: i64 = if x1 > bx1 { bx1 } else { x1 };
    let cy0: i64 = if y0 < by0 { by0 } else { y0 };
    let cy1: i64 = if y1 > by1 { by1 } else { y1 };

    let uv_min_x: Rat = if bx0 <= x0 {
        gv.tex_coords.min_x
    } else {
        uv_edge(
            gv.tex_coords.min_x.num,
            gv.tex_coords.max_x.num,
            gv.tex_coords.min_x.den,
            x0,
            x1 - x0,
            cx0,
        )
    };
    let uv_max_x: Rat = if x1 <= bx1 {
        gv.tex_coords.max_x
    } else {
        uv_edge(
            gv.tex_coords.min_x.num,
            gv.tex_coords.max_x.num,
            gv.tex_coords.min_x.den,
            x0,
            x1 - x0,
            cx1,
        )
    };
    let uv_min_y: Rat = if by0 <= y0 {
        gv.tex_coords.min_y
    } else {
        uv_edge(
            gv.tex_coords.min_y.num,
            gv.tex_coords.max_y.num,
            gv.tex_coords.min_y.den,
            y0,
            y1 - y0,
            cy0,
        )
    };
    let uv_max_y: Rat = if y1 <= by1 {
        gv.tex_coords.max_y
    } else {
        uv_edge(
            gv.tex_coords.min_y.num,
            gv.tex_coords.max_y.num,
            gv.tex_coords.min_y.den,
            y0,
            y1 - y0,
            cy1,
        )
    };

    Vertex {
        clip_min_x: Rat::new(2 * cx0 - w, w),
        clip_max_y: Rat::new(h - 2 * cy1, h),
        z: gv.z,
        clip_max_x: Rat::new(2 * cx1 - w, w),
        clip_min_y: Rat::new(h - 2 * cy0, h),
        uv_min_x,
        uv_max_y,
        uv_max_x,
        uv_min_y,
        color: gv.color,
    }
}

/// The affine texture numerator and its denominator fit in `i64`.
proof fn lemma_uv_frac_in_range(p: int, q: int, d: int, x0: int, w: int, c: int)
    requires
        0 < d <= MAX_UV_DEN as int,
        0 <= p <= d,
        0 <= q <= d,
        0 < w <= 0x1_0000_0000,
        -0x8000_0000 <= x0 <= 0x8000_0000,
        -0x8000_0000 <= c <= 0x8000_0000,
    ensures
        i64::MIN <= uv_map_num(p, q, x0, w, c) <= i64::MAX,
        0 < d * w <= i64::MAX,
{
    lemma_mul_abs_bound(p, w, MAX_UV_DEN as int, 0x1_0000_0000);
    lemma_mul_abs_bound(q - p, c - x0, MAX_UV_DEN as int, 0x1_0000_0000);
    lemma_mul_abs_bound(d, w, MAX_UV_DEN as int, 0x1_0000_0000);
    lemma_mul_pos(d, w);
}

/// A glyph whose pixel rectangle lies entirely inside its clipping bounds is
/// not clipped: its texture rectangle and its pixel rectangle pass through
/// the formatter unchanged.
pub proof fn lemma_inside_bounds_uv_unchanged(gv: GlyphPlacement)
    requires
        gv.wf(),
        gv.inside_bounds(),
    ensures
        vertex_of(gv).uv_min_x == gv.tex_coords.min_x,
        vertex_of(gv).uv_max_x == gv.tex_coords.max_x,
        vertex_of(gv).uv_min_y == gv.tex_coords.min_y,
        vertex_of(gv).uv_max_y == gv.tex_coords.max_y,
        gv.clamped_min_x() == gv.pixel_coords.min_x as int,
        gv.clamped_max_x() == gv.pixel_coords.max_x as int,
        gv.clamped_min_y() == gv.pixel_coords.min_y as int,
        gv.clamped_max_y() == gv.pixel_coords.max_y as int,
{
}

/// Screen-to-clip round trip: the full-screen pixel rectangle
/// `(0,0)..(screen_w, screen_h)` maps to the full clip-space square
/// `(-1,-1)..(1,1)`, with `y` inverted — the pixel-space top (`y = 0`) lands
/// at clip-space `+1` and the pixel-space bottom at `-1`.
pub proof fn lemma_full_screen_round_trip(gv: GlyphPlacement)
    requires
        gv.wf(),
        gv.inside_bounds(),
        gv.pixel_coords.min_x == 0,
        gv.pixel_coords.min_y == 0,
        gv.pixel_coords.max_x as int == gv.screen_w as int,
        gv.pixel_coords.max_y as int == gv.screen_h as int,
    ensures
        vertex_of(gv).clip_min_x.is_ratio(-1, 1),
        vertex_of(gv).clip_max_x.is_ratio(1, 1),
        vertex_of(gv).clip_min_y.is_ratio(1, 1),
        vertex_of(gv).clip_max_y.is_ratio(-1, 1),
{
}

/// Ring identity behind the aspect-ratio law: with texture span `q - p` over
/// `d`, pixel span `w` and clamped span `n`, the rescaled texture span over
/// the clamped pixel span equals the original texture span over the original
/// pixel span.
proof fn lemma_ratio_identity(p: int, q: int, d: int, w: int, n: int)
    ensures
        ((p * w + (q - p) * n) * d - p * (d * w)) * d * w == (q - p) * ((d * w) * d) * n,
{
    assert((p * w + (q - p) * n) * d - p * (d * w) == (q - p) * n * d) by (nonlinear_arith);
    assert(((q - p) * n * d) * d * w == (q - p) * ((d * w) * d) * n) by (nonlinear_arith);
}

/// Aspect-ratio preservation: for a glyph clipped on the right edge and on no
/// other `x` edge, the left texture edge is unchanged, and the new texture
/// span over the new pixel span equals the old texture span over the old
/// pixel span, as exact fractions.
pub proof fn lemma_clip_right_preserves_ratio(gv: GlyphPlacement)
    requires
        gv.wf(),
        gv.bounds.min_x <= gv.pixel_coords.min_x,
        gv.pixel_coords.max_x > gv.bounds.max_x,
    ensures
        vertex_of(gv).uv_min_x == gv.tex_coords.min_x,
        ({
            let v = vertex_of(gv);
            let span_new_num = v.uv_max_x.num * v.uv_min_x.den - v.uv_min_x.num * v.uv_max_x.den;
            let span_new_den = v.uv_max_x.den * v.uv_min_x.den;
            let px_new = gv.clamped_max_x() - gv.pixel_coords.min_x;
            let span_old_num = gv.tex_coords.max_x.num - gv.tex_coords.min_x.num;
            let span_old_den = gv.tex_coords.min_x.den as int;
            let px_old = gv.pixel_coords.max_x - gv.pixel_coords.min_x;
            span_new_num * span_old_den * px_old == span_old_num * span_new_den * px_new
        }),
{
    let p = gv.tex_coords.min_x.num as int;
    let q = gv.tex_coords.max_x.num as int;
    let d = gv.tex_coords.min_x.den as int;
    let x0 = gv.pixel_coords.min_x as int;
    let w = gv.pixel_coords.max_x - gv.pixel_coords.min_x;
    let c = gv.clamped_max_x();
    lemma_uv_frac_in_range(p, q, d, x0, w, c);
    let v = vertex_of(gv);
    assert(v.uv_max_x.num == uv_map_num(p, q, x0, w, c));
    assert(v.uv_max_x.den == d * w);
    lemma_ratio_identity(p, q, d, w, c - x0);
}

/// Ring identity behind the aspect-ratio law for a clamped `min` edge, where
/// the span left visible runs from the clamp position `n` (relative to the
/// original `min` edge) to the far end of the pixel span `w`.
proof fn lemma_ratio_identity_min(p: int, q: int, d: int, w: int, n: int)
    ensures
        (q * (d * w) - (p * w + (q - p) * n) * d) * d * w == (q - p) * ((d * w) * d) * (w - n),
{
    assert(q * (d * w) - (p * w + (q - p) * n) * d == (q - p) * d * (w - n)) by (nonlinear_arith);
    assert(((q - p) * d * (w - n)) * d * w == (q - p) * ((d * w) * d) * (w - n))
        by (nonlinear_arith);
}

/// Aspect-ratio preservation: for a glyph clipped on the left edge and on no
/// other `x` edge, the right texture edge is unchanged and the new texture
/// span over the new pixel span equals the old texture span over the old
/// pixel span, as exact fractions.
pub proof fn lemma_clip_left_preserves_ratio(gv: GlyphPlacement)
    requires
        gv.wf(),
        gv.pixel_coords.min_x < gv.bounds.min_x,
        gv.pixel_coords.max_x <= gv.bounds.max_x,
    ensures
        vertex_of(gv).uv_max_x == gv.tex_coords.max_x,
        ({
            let v = vertex_of(gv);
            let span_new_num = v.uv_max_x.num * v.uv_min_x.den - v.uv_min_x.num * v.uv_max_x.den;
            let span_new_den = v.uv_min_x.den * v.uv_max_x.den;
            let px_new = gv.pixel_coords.max_x - gv.clamped_min_x();
            let span_old_num = gv.tex_coords.max_x.num - gv.tex_coords.min_x.num;
            let span_old_den = gv.tex_coords.min_x.den as int;
            let px_old = gv.pixel_coords.max_x - gv.pixel_coords.min_x;
            span_new_num * span_old_den * px_old == span_old_num * span_new_den * px_new
        }),
{
    let p = gv.tex_coords.min_x.num as int;
    let q = gv.tex_coords.max_x.num as int;
    let d = gv.tex_coords.min_x.den as int;
    let x0 = gv.pixel_coords.min_x as int;
    let w = gv.pixel_coords.max_x - gv.pixel_coords.min_x;
    let c = gv.clamped_min_x();
    lemma_uv_frac_in_range(p, q, d, x0, w, c);
    let v = vertex_of(gv);
    assert(v.uv_min_x.num == uv_map_num(p, q, x0, w, c));
    assert(v.uv_min_x.den == d * w);
    lemma_ratio_identity_min(p, q, d, w, c - x0);
}

/// Aspect-ratio preservation: for a glyph clipped at the top edge and on no
/// other `y` edge, the bottom texture edge is unchanged and the new texture
/// span over the new pixel span equals the old texture span over the old
/// pixel span, as exact fractions.
pub proof fn lemma_clip_top_preserves_ratio(gv: GlyphPlacement)
    requires
        gv.wf(),
        gv.pixel_coords.min_y < gv.bounds.min_y,
        gv.pixel_coords.max_y <= gv.bounds.max_y,
    ensures
        vertex_of(gv).uv_max_y == gv.tex_coords.max_y,
        ({
            let v = vertex_of(gv);
            let span_new_num = v.uv_max_y.num * v.uv_min_y.den - v.uv_min_y.num * v.uv_max_y.den;
            let span_new_den = v.uv_min_y.den * v.uv_max_y.den;
            let px_new = gv.pixel_coords.max_y - gv.clamped_min_y();
            let span_old_num = gv.tex_coords.max_y.num - gv.tex_coords.min_y.num;
            let span_old_den = gv.tex_coords.min_y.den as int;
            let px_old = gv.pixel_coords.max_y - gv.pixel_coords.min_y;
            span_new_num * span_old_den * px_old == span_old_num * span_new_den * px_new
        }),
{
    let p = gv.tex_coords.min_y.num as int;
    let q = gv.tex_coords.max_y.num as int;
    let d = gv.tex_coords.min_y.den as int;
    let y0 = gv.pixel_coords.min_y as int;
    let h = gv.pixel_coords.max_y - gv.pixel_coords.min_y;
    let c = gv.clamped_min_y();
    lemma_uv_frac_in_range(p, q, d, y0, h, c);
    let v = vertex_of(gv);
    assert(v.uv_min_y.num == uv_map_num(p, q, y0, h, c));
    assert(v.uv_min_y.den == d * h);
    lemma_ratio_identity_min(p, q, d, h, c - y0);
}

/// Aspect-ratio preservation on the flipped axis: for a glyph clipped at the
/// bottom edge and on no other `y` edge, the top texture edge is unchanged
/// and the new texture span over the new pixel span equals the old texture
/// span over the old pixel span. In clip space the comparison runs the other
/// way (clip `y` decreases downward) while the texture is not flipped; in
/// pixel space both laws read alike.
pub proof fn lemma_clip_bottom_preserves_ratio(gv: GlyphPlacement)
    requires
        gv.wf(),
        gv.bounds.min_y <= gv.pixel_coords.min_y,
        gv.pixel_coords.max_y > gv.bounds.max_y,
    ensures
        vertex_of(gv).uv_min_y == gv.tex_coords.min_y,
        ({
            let v = vertex_of(gv);
            let span_new_num = v.uv_max_y.num * v.uv_min_y.den - v.uv_min_y.num * v.uv_max_y.den;
            let span_new_den = v.uv_max_y.den * v.uv_min_y.den;
            let px_new = gv.clamped_max_y() - gv.pixel_coords.min_y;
            let span_old_num = gv.tex_coords.max_y.num - gv.tex_coords.min_y.num;
            let span_old_den = gv.tex_coords.min_y.den as int;
            let px_old = gv.pixel_coords.max_y - gv.pixel_coords.min_y;
            span_new_num * span_old_den * px_old == span_old_num * span_new_den * px_new
        }),
{
    let p = gv.tex_coords.min_y.num as int;
    let q = gv.tex_coords.max_y.num as int;
    let d = gv.tex_coords.min_y.den as int;
    let y0 = gv.pixel_coords.min_y as int;
    let h = gv.pixel_coords.max_y - gv.pixel_coords.min_y;
    let c = gv.clamped_max_y();
    lemma_uv_frac_in_range(p, q, d, y0, h, c);
    let v = vertex_of(gv);
    assert(v.uv_max_y.num == uv_map_num(p, q, y0, h, c));
    assert(v.uv_max_y.den == d * h);
    lemma_ratio_identity(p, q, d, h, c - y0);
}

/// A glyph that lies on screen and inside its clipping bounds produces a
/// vertex whose clip-space coordinates lie in `[-1, 1]` and whose texture
/// coordinates lie in `[0, 1]`, as exact rationals.
pub proof fn lemma_on_screen_vertex_in_range(gv: GlyphPlacement)
    requires
        gv.wf(),
        gv.inside_bounds(),
        0 <= gv.pixel_coords.min_x,
        gv.pixel_coords.max_x as int <= gv.screen_w as int,
        0 <= gv.pixel_coords.min_y,
        gv.pixel_coords.max_y as int <= gv.screen_h as int,
    ensures
        ({
            let v = vertex_of(gv);
            let neg_one = Rat { num: -1i64, den: 1i64 };
            let zero = Rat { num: 0i64, den: 1i64 };
            let one = Rat { num: 1i64, den: 1i64 };
            &&& spec_rat_le(neg_one, v.clip_min_x) && spec_rat_le(v.clip_min_x, one)
            &&& spec_rat_le(neg_one, v.clip_max_x) && spec_rat_le(v.clip_max_x, one)
            &&& spec_rat_le(neg_one, v.clip_min_y) && spec_rat_le(v.clip_min_y, one)
            &&& spec_rat_le(neg_one, v.clip_max_y) && spec_rat_le(v.clip_max_y, one)
            &&& spec_rat_le(zero, v.uv_min_x) && spec_rat_le(v.uv_min_x, one)
            &&& spec_rat_le(zero, v.uv_max_x) && spec_rat_le(v.uv_max_x, one)
            &&& spec_rat_le(zero, v.uv_min_y) && spec_rat_le(v.uv_min_y, one)
            &&& spec_rat_le(zero, v.uv_max_y) && spec_rat_le(v.uv_max_y, one)
        }),
{
    lemma_inside_bounds_uv_unchanged(gv);
}

/// `a < b` is preserved by multiplying both sides with a positive factor.
proof fn lemma_lt_mul_pos(a: int, b: int, m: int) by (nonlinear_arith)
    requires
        a < b,
        0 < m,
    ensures
        a * m < b * m,
{
}

/// The clipped texture edge moves strictly monotonically with the clip
/// amount: between two placements that differ only in how far the right
/// clipping bound cuts into the glyph, the one that keeps more pixels keeps
/// strictly more texture (for a glyph with positive texture width).
pub proof fn lemma_clip_right_monotone(gv1: GlyphPlacement, gv2: GlyphPlacement)
    requires
        gv1.wf(),
        gv2.wf(),
        gv1.tex_coords == gv2.tex_coords,
        gv1.pixel_coords == gv2.pixel_coords,
        gv1.tex_coords.min_x.num < gv1.tex_coords.max_x.num,
        gv1.bounds.max_x < gv2.bounds.max_x,
        gv2.bounds.max_x < gv2.pixel_coords.max_x,
    ensures
        spec_rat_lt(vertex_of(gv1).uv_max_x, vertex_of(gv2).uv_max_x),
{
    let p = gv1.tex_coords.min_x.num as int;
    let q = gv1.tex_coords.max_x.num as int;
    let d = gv1.tex_coords.min_x.den as int;
    let x0 = gv1.pixel_coords.min_x as int;
    let w = gv1.pixel_coords.max_x - gv1.pixel_coords.min_x;
    let c1 = gv1.clamped_max_x();
    let c2 = gv2.clamped_max_x();
    lemma_uv_frac_in_range(p, q, d, x0, w, c1);
    lemma_uv_frac_in_range(p, q, d, x0, w, c2);
    let n1 = uv_map_num(p, q, x0, w, c1);
    let n2 = uv_map_num(p, q, x0, w, c2);
    lemma_mul_pos(q - p, c2 - c1);
    assert((q - p) * (c2 - x0) - (q - p) * (c1 - x0) == (q - p) * (c2 - c1)) by (nonlinear_arith);
    assert(n1 < n2);
    lemma_lt_mul_pos(n1, n2, d * w);
}

} // verus!
