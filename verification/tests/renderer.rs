use grr_glyph::rat::Rat;
use grr_glyph::renderer::{
    BlendFactor, BrushAction, DepthCompare, GlyphRenderer, RenderError, ResolveOutcome,
};
use grr_glyph::vertex::{Color, GlyphPlacement, PixelRect, UvRect, Vertex, to_vertex};

fn sample_vertex() -> Vertex {
    let gv = GlyphPlacement {
        tex_coords: UvRect::from_atlas(0, 0, 4, 4, 8, 8),
        pixel_coords: PixelRect { min_x: 1, min_y: 1, max_x: 9, max_y: 9 },
        bounds: PixelRect { min_x: 0, min_y: 0, max_x: 10, max_y: 10 },
        screen_w: 10,
        screen_h: 10,
        color: Color {
            r: Rat::from_int(1),
            g: Rat::from_int(0),
            b: Rat::from_int(0),
            a: Rat::from_int(1),
        },
        z: Rat::from_int(0),
    };
    to_vertex(&gv)
}

#[test]
fn empty_frame_draws_nothing() {
    // zero queued sections: the resolved vertex list is empty, no buffer is
    // allocated and no draw call is issued
    let mut r = GlyphRenderer::new();
    let plan = r.frame_step(ResolveOutcome::Resolved(BrushAction::Draw(vec![]))).unwrap();
    assert!(plan.delete.is_none());
    assert!(plan.upload.is_none());
    assert!(r.draw_params().is_none());
}

#[test]
fn draw_then_redraw_reuses_buffer() {
    let mut r = GlyphRenderer::new();
    let plan = r.frame_step(ResolveOutcome::Resolved(BrushAction::Draw(vec![sample_vertex()]))).unwrap();
    assert!(plan.delete.is_none());
    assert_eq!(plan.upload.as_ref().map(|v| v.len()), Some(1));
    r.install_buffer(7);
    let params = r.draw_params().unwrap();
    assert_eq!(params.buffer, 7);
    assert_eq!(params.instance_count, 1);

    // the same content resolved again: a redraw touches nothing and the very
    // same buffer handle is reused, with no new allocation
    let plan2 = r.frame_step(ResolveOutcome::Resolved(BrushAction::ReDraw)).unwrap();
    assert!(plan2.delete.is_none());
    assert!(plan2.upload.is_none());
    let params2 = r.draw_params().unwrap();
    assert_eq!(params2.buffer, 7);
    assert_eq!(params2.instance_count, 1);
}

#[test]
fn changed_content_replaces_buffer() {
    let mut r = GlyphRenderer::new();
    r.frame_step(ResolveOutcome::Resolved(BrushAction::Draw(vec![sample_vertex()]))).unwrap();
    r.install_buffer(7);
    let plan = r
        .frame_step(ResolveOutcome::Resolved(BrushAction::Draw(vec![
            sample_vertex(),
            sample_vertex(),
        ])))
        .unwrap();
    // the old buffer is released before the new one is installed
    assert_eq!(plan.delete, Some(7));
    assert_eq!(plan.upload.as_ref().map(|v| v.len()), Some(2));
    r.install_buffer(9);
    let params = r.draw_params().unwrap();
    assert_eq!(params.buffer, 9);
    assert_eq!(params.instance_count, 2);
}

#[test]
fn emptied_content_releases_buffer() {
    let mut r = GlyphRenderer::new();
    r.frame_step(ResolveOutcome::Resolved(BrushAction::Draw(vec![sample_vertex()]))).unwrap();
    r.install_buffer(7);
    let plan = r.frame_step(ResolveOutcome::Resolved(BrushAction::Draw(vec![]))).unwrap();
    assert_eq!(plan.delete, Some(7));
    assert!(plan.upload.is_none());
    assert!(r.draw_params().is_none());
}

#[test]
fn atlas_too_small_is_fatal_and_preserves_state() {
    let mut r = GlyphRenderer::new();
    r.frame_step(ResolveOutcome::Resolved(BrushAction::Draw(vec![sample_vertex()]))).unwrap();
    r.install_buffer(7);
    let err = r
        .frame_step(ResolveOutcome::TooSmall { suggested_w: 512, suggested_h: 512 })
        .unwrap_err();
    assert_eq!(err, RenderError::AtlasTooSmall { suggested_w: 512, suggested_h: 512 });
    // the draw state is exactly as before the failed resolve
    let params = r.draw_params().unwrap();
    assert_eq!(params.buffer, 7);
    assert_eq!(params.instance_count, 1);
}

#[test]
fn draw_call_uses_fixed_pipeline_state() {
    let mut r = GlyphRenderer::new();
    r.frame_step(ResolveOutcome::Resolved(BrushAction::Draw(vec![sample_vertex()]))).unwrap();
    r.install_buffer(1);
    let params = r.draw_params().unwrap();
    // a quad per instance from a fixed 4-vertex strip, 13 floats of stride
    assert_eq!(params.vertices_per_instance, 4);
    assert_eq!(params.stride_bytes, 52);
    // source-over alpha blending
    assert_eq!(params.color_src_factor, BlendFactor::SrcAlpha);
    assert_eq!(params.color_dst_factor, BlendFactor::OneMinusSrcAlpha);
    assert_eq!(params.alpha_src_factor, BlendFactor::One);
    assert_eq!(params.alpha_dst_factor, BlendFactor::One);
    // depth tested less-or-equal with depth writes on
    assert!(params.depth_test);
    assert!(params.depth_write);
    assert_eq!(params.depth_compare, DepthCompare::LessEqual);
}

fn overlap_winner(first: Rat, second: Rat) -> Rat {
    // the depth stored after drawing `second` over `first` under the
    // less-or-equal depth test with depth writes enabled
    if second.le(&first) { second } else { first }
}

#[test]
fn lower_depth_wins_either_order() {
    // two overlapping quads at depths 0.2 and 1.0: with the less-or-equal
    // depth test the lower depth owns the overlap whichever is drawn first
    let za = Rat::new(2, 10);
    let zb = Rat::from_int(1);
    assert!(za.lt(&zb));
    assert_eq!(overlap_winner(za, zb), za);
    assert_eq!(overlap_winner(zb, za), za);
}
