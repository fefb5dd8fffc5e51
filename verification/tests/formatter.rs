use grr_glyph::rat::Rat;
use grr_glyph::vertex::{Color, GlyphPlacement, PixelRect, UvRect, to_vertex};

fn white() -> Color {
    Color {
        r: Rat::from_int(1),
        g: Rat::from_int(1),
        b: Rat::from_int(1),
        a: Rat::from_int(1),
    }
}

fn placement(pixel: PixelRect, bounds: PixelRect, uv: UvRect) -> GlyphPlacement {
    GlyphPlacement {
        tex_coords: uv,
        pixel_coords: pixel,
        bounds,
        screen_w: 100,
        screen_h: 100,
        color: white(),
        z: Rat::new(1, 2),
    }
}

fn atlas_uv() -> UvRect {
    // the sub-rectangle (0,0)..(8,8) of an 8x8 atlas: the full texture
    UvRect::from_atlas(0, 0, 8, 8, 8, 8)
}

#[test]
fn unclipped_uv_unchanged() {
    let pixel = PixelRect { min_x: 10, min_y: 20, max_x: 30, max_y: 40 };
    let bounds = PixelRect { min_x: 0, min_y: 0, max_x: 100, max_y: 100 };
    let uv = UvRect::from_atlas(1, 2, 5, 6, 8, 8);
    let v = to_vertex(&placement(pixel, bounds, uv));
    assert_eq!(v.uv_min_x, uv.min_x);
    assert_eq!(v.uv_max_x, uv.max_x);
    assert_eq!(v.uv_min_y, uv.min_y);
    assert_eq!(v.uv_max_y, uv.max_y);
    // clip x of pixel 10 on a 100-wide screen: (2*10 - 100)/100
    assert_eq!(v.clip_min_x.num, -80);
    assert_eq!(v.clip_min_x.den, 100);
    assert_eq!(v.clip_max_x.num, -40);
    assert_eq!(v.clip_max_x.den, 100);
    // clip y of pixel 20: (100 - 2*20)/100; of pixel 40: (100 - 2*40)/100
    assert_eq!(v.clip_min_y.num, 60);
    assert_eq!(v.clip_min_y.den, 100);
    assert_eq!(v.clip_max_y.num, 20);
    assert_eq!(v.clip_max_y.den, 100);
}

#[test]
fn full_screen_round_trip() {
    // the full-screen rectangle maps to the clip-space square (-1,-1)..(1,1)
    let pixel = PixelRect { min_x: 0, min_y: 0, max_x: 100, max_y: 100 };
    let bounds = PixelRect { min_x: 0, min_y: 0, max_x: 100, max_y: 100 };
    let v = to_vertex(&placement(pixel, bounds, atlas_uv()));
    // left edge at clip -1, right edge at clip +1
    assert_eq!(v.clip_min_x.num, -v.clip_min_x.den);
    assert_eq!(v.clip_max_x.num, v.clip_max_x.den);
    // pixel top (y = 0) at clip +1, pixel bottom (y = 100) at clip -1:
    // the y axis is inverted relative to pixel space
    assert_eq!(v.clip_min_y.num, v.clip_min_y.den);
    assert_eq!(v.clip_max_y.num, -v.clip_max_y.den);
}

#[test]
fn clip_right_rescales_uv() {
    // glyph 10 pixels wide, the right half cut off by the bounds
    let pixel = PixelRect { min_x: 0, min_y: 0, max_x: 10, max_y: 10 };
    let bounds = PixelRect { min_x: 0, min_y: 0, max_x: 5, max_y: 10 };
    let v = to_vertex(&placement(pixel, bounds, atlas_uv()));
    // left UV edge unchanged
    assert_eq!(v.uv_min_x, atlas_uv().min_x);
    // right UV edge: (0*10 + 8*5) / (8*10) = 40/80, i.e. one half
    assert_eq!(v.uv_max_x.num, 40);
    assert_eq!(v.uv_max_x.den, 80);
    // right clip edge clamped to the bound: (2*5 - 100)/100
    assert_eq!(v.clip_max_x.num, -90);
    assert_eq!(v.clip_max_x.den, 100);
    // y untouched
    assert_eq!(v.uv_min_y, atlas_uv().min_y);
    assert_eq!(v.uv_max_y, atlas_uv().max_y);
}

#[test]
fn clip_left_rescales_uv() {
    let pixel = PixelRect { min_x: 0, min_y: 0, max_x: 10, max_y: 10 };
    let bounds = PixelRect { min_x: 5, min_y: 0, max_x: 100, max_y: 100 };
    let v = to_vertex(&placement(pixel, bounds, atlas_uv()));
    // right UV edge unchanged
    assert_eq!(v.uv_max_x, atlas_uv().max_x);
    // left UV edge: (0*10 + 8*(5-0)) / (8*10) = 40/80
    assert_eq!(v.uv_min_x.num, 40);
    assert_eq!(v.uv_min_x.den, 80);
}

#[test]
fn clip_bottom_rescales_uv() {
    // bounds cut the lower 4 pixels: in clip space the bottom edge rises,
    // in texture space the max y edge moves up proportionally
    let pixel = PixelRect { min_x: 0, min_y: 0, max_x: 10, max_y: 10 };
    let bounds = PixelRect { min_x: 0, min_y: 0, max_x: 100, max_y: 6 };
    let v = to_vertex(&placement(pixel, bounds, atlas_uv()));
    assert_eq!(v.uv_min_y, atlas_uv().min_y);
    // (0*10 + 8*6) / (8*10) = 48/80
    assert_eq!(v.uv_max_y.num, 48);
    assert_eq!(v.uv_max_y.den, 80);
    // clamped bottom edge at pixel y = 6: (100 - 2*6)/100
    assert_eq!(v.clip_max_y.num, 88);
    assert_eq!(v.clip_max_y.den, 100);
}

#[test]
fn clip_top_rescales_uv() {
    let pixel = PixelRect { min_x: 0, min_y: 0, max_x: 10, max_y: 10 };
    let bounds = PixelRect { min_x: 0, min_y: 3, max_x: 100, max_y: 100 };
    let v = to_vertex(&placement(pixel, bounds, atlas_uv()));
    assert_eq!(v.uv_max_y, atlas_uv().max_y);
    // (0*10 + 8*(3-0)) / (8*10) = 24/80
    assert_eq!(v.uv_min_y.num, 24);
    assert_eq!(v.uv_min_y.den, 80);
}

#[test]
fn clip_two_edges_rescales_both() {
    // clipped on the right and at the bottom at once: each axis rescales
    // independently
    let pixel = PixelRect { min_x: 0, min_y: 0, max_x: 10, max_y: 10 };
    let bounds = PixelRect { min_x: 0, min_y: 0, max_x: 5, max_y: 6 };
    let v = to_vertex(&placement(pixel, bounds, atlas_uv()));
    assert_eq!(v.uv_max_x.num, 40);
    assert_eq!(v.uv_max_x.den, 80);
    assert_eq!(v.uv_max_y.num, 48);
    assert_eq!(v.uv_max_y.den, 80);
    assert_eq!(v.uv_min_x, atlas_uv().min_x);
    assert_eq!(v.uv_min_y, atlas_uv().min_y);
}

#[test]
fn single_glyph_scenario() {
    // one glyph of a small section at the screen origin on a 100x100 canvas,
    // depth one half: depth and color pass through, texture coordinates stay
    // normalized, clip coordinates stay inside the clip-space square
    let pixel = PixelRect { min_x: 0, min_y: 2, max_x: 7, max_y: 10 };
    let bounds = PixelRect { min_x: 0, min_y: 0, max_x: 100, max_y: 100 };
    let uv = UvRect::from_atlas(0, 0, 6, 7, 256, 256);
    let gv = placement(pixel, bounds, uv);
    let v = to_vertex(&gv);
    assert_eq!(v.z, Rat::new(1, 2));
    assert_eq!(v.color, gv.color);
    let zero = Rat::from_int(0);
    let one = Rat::from_int(1);
    for uv_edge in [v.uv_min_x, v.uv_max_x, v.uv_min_y, v.uv_max_y] {
        assert!(zero.le(&uv_edge));
        assert!(uv_edge.le(&one));
    }
    let neg_one = Rat::from_int(-1);
    for clip_edge in [v.clip_min_x, v.clip_max_x, v.clip_min_y, v.clip_max_y] {
        assert!(neg_one.le(&clip_edge));
        assert!(clip_edge.le(&one));
    }
}
