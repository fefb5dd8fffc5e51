use vstd::prelude::*;
use crate::rat::{Rat, spec_rat_le, spec_rat_lt};
use crate::vertex::Vertex;

verus! {

/// Identifier of a device buffer, issued by the host layer when it creates
/// the buffer.
pub type BufferId = u64;

/// What the layout engine decided for the current frame.
#[derive(Debug)]
pub enum BrushAction {
    /// The visible glyphs changed: the full new vertex list.
    Draw(Vec<Vertex>),
    /// Nothing changed: the previous frame's buffer is reused as it is.
    ReDraw,
}

/// Outcome of one resolve attempt by the layout engine.
#[derive(Debug)]
pub enum ResolveOutcome {
    /// The queued sections were resolved into an action.
    Resolved(BrushAction),
    /// The atlas cannot hold every required glyph bitmap; the engine suggests
    /// larger dimensions.
    TooSmall { suggested_w: u32, suggested_h: u32 },
}

/// Errors surfaced by a draw cycle.
#[derive(Clone, Copy, Debug, PartialEq, Eq, Structural)]
pub enum RenderError {
    /// The atlas cannot hold the required glyph bitmaps; the suggested
    /// dimensions come from the layout engine. Growing the atlas is out of
    /// scope, so this is a distinct fatal error rather than a retry, and the
    /// draw state is left exactly as it was.
    AtlasTooSmall { suggested_w: u32, suggested_h: u32 },
    /// A device resource creation or upload call failed.
    DeviceResourceFailure,
    /// The viewport or surface dimensions were unavailable.
    MissingViewport,
}

/// The one live vertex buffer and how many glyph quads it holds.
#[derive(Clone, Copy, Debug, PartialEq, Eq, Structural)]
pub struct DrawCommand {
    pub buffer: BufferId,
    pub vertex_count: usize,
}

/// What the host layer must do to the device before the frame's draw call:
/// release at most one stale buffer, and upload at most one fresh vertex
/// list.
#[derive(Debug)]
pub struct FramePlan {
    /// Buffer to release; it is no longer referenced by the renderer.
    pub delete: Option<BufferId>,
    /// Vertices to upload into a fresh buffer; the new buffer's id is handed
    /// back through `install_buffer`.
    pub upload: Option<Vec<Vertex>>,
}

/// Comparison function of the depth test.
#[derive(Clone, Copy, Debug, PartialEq, Eq, Structural)]
pub enum DepthCompare {
    Less,
    LessEqual,
    Always,
}

/// A factor of the fixed-function blend stage.
#[derive(Clone, Copy, Debug, PartialEq, Eq, Structural)]
pub enum BlendFactor {
    Zero,
    One,
    SrcAlpha,
    OneMinusSrcAlpha,
}

/// Everything the host layer needs to issue the frame's one instanced draw
/// call: the buffer, one instance per glyph quad expanded from a fixed
/// 4-vertex strip, the per-instance stride of 13 32-bit floats, source-over
/// alpha blending, and a less-or-equal depth test with depth writes on.
#[derive(Clone, Copy, Debug, PartialEq, Eq, Structural)]
pub struct DrawParams {
    pub buffer: BufferId,
    pub instance_count: usize,
    pub vertices_per_instance: u32,
    pub stride_bytes: u32,
    pub depth_test: bool,
    pub depth_write: bool,
    pub depth_compare: DepthCompare,
    pub color_src_factor: BlendFactor,
    pub color_dst_factor: BlendFactor,
    pub alpha_src_factor: BlendFactor,
    pub alpha_dst_factor: BlendFactor,
}

/// The draw-buffer lifecycle of the glyph renderer. It owns the decision
/// logic of a frame: which buffer to release, when a fresh upload is needed,
/// when the previous buffer is reused, and with what fixed pipeline state the
/// draw call is issued. The host layer performs the device calls and reports
/// their results back.
pub struct GlyphRenderer {
    draw: Option<DrawCommand>,
    pending: Option<usize>,
}

impl GlyphRenderer {
    /// The live buffer, if the most recent resolved action produced a
    /// non-empty vertex list.
    pub closed spec fn cmd(self) -> Option<DrawCommand> {
        self.draw
    }

    /// The vertex count awaiting a buffer id from the host layer.
    pub closed spec fn pending(self) -> Option<usize> {
        self.pending
    }

    /// A renderer with nothing to draw.
    pub fn new() -> (r: GlyphRenderer)
        ensures
            r.cmd() is None,
            r.pending() is None,
    {
        GlyphRenderer { draw: None, pending: None }
    }

    /// One resolve step: fold the layout engine's outcome into the draw
    /// state. A `ReDraw` keeps the live buffer untouched; a `Draw` releases
    /// the old buffer and asks for a fresh upload exactly when the new list
    /// is non-empty; a `TooSmall` outcome aborts the cycle with a distinct
    /// error and leaves the state exactly as it was.
    pub fn frame_step(&mut self, outcome: ResolveOutcome) -> (r: Result<
        FramePlan,
        RenderError,
    >)
        requires
            old(self).pending() is None,
        ensures
            match outcome {
                ResolveOutcome::TooSmall { suggested_w, suggested_h } => {
                    &&& *final(self) == *old(self)
                    &&& r == Err::<FramePlan, RenderError>(
                        RenderError::AtlasTooSmall { suggested_w, suggested_h },
                    )
                },
                ResolveOutcome::Resolved(action) => {
                    &&& r is Ok
                    &&& match action {
                        BrushAction::ReDraw => {
                            &&& *final(self) == *old(self)
                            &&& r->Ok_0.delete is None
                            &&& r->Ok_0.upload is None
                        },
                        BrushAction::Draw(verts) => {
                            &&& r->Ok_0.delete == match old(self).cmd() {
                                Some(c) => Some(c.buffer),
                                None => None::<BufferId>,
                            }
                            &&& final(self).cmd() is None
                            &&& if verts.len() == 0 {
                                r->Ok_0.upload is None && final(self).pending() is None
                            } else {
                                r->Ok_0.upload == Some(verts) && final(self).pending() == Some(
                                    verts.len(),
                                )
                            }
                        },
                    }
                },
            },
    {
        match outcome {
            ResolveOutcome::TooSmall { suggested_w, suggested_h } => {
                Err(RenderError::AtlasTooSmall { suggested_w, suggested_h })
            },
            ResolveOutcome::Resolved(action) => {
                match action {
                    BrushAction::ReDraw => Ok(FramePlan { delete: None, upload: None }),
                    BrushAction::Draw(verts) => {
                        let delete: Option<BufferId> = match &self.draw {
                            Some(c) => Some(c.buffer),
                            None => None,
                        };
                        self.draw = None;
                        if verts.len() == 0 {
                            Ok(FramePlan { delete, upload: None })
                        } else {
                            self.pending = Some(verts.len());
                            Ok(FramePlan { delete, upload: Some(verts) })
                        }
                    },
                }
            },
        }
    }

    /// Hand back the id of the buffer the host layer created for the pending
    /// upload. The recorded vertex count is exactly the length of the
    /// uploaded list.
    pub fn install_buffer(&mut self, buffer: BufferId)
        requires
            old(self).pending() is Some,
        ensures
            final(self).cmd() == Some(
                DrawCommand { buffer, vertex_count: old(self).pending()->Some_0 },
            ),
            final(self).pending() is None,
    {
        let count: usize = if let Some(n) = self.pending {
            n
        } else {
            0
        };
        self.pending = None;
        self.draw = Some(DrawCommand { buffer, vertex_count: count });
    }

    /// The frame's draw call, if there is anything to draw: `None` exactly
    /// when no buffer is live, so an empty frame issues no draw call;
    /// otherwise one instanced draw over all glyph quads with the fixed
    /// pipeline state.
    pub fn draw_params(&self) -> (p: Option<DrawParams>)
        ensures
            match self.cmd() {
                None => p is None,
                Some(cmd) => p == Some(
                    DrawParams {
                        buffer: cmd.buffer,
                        instance_count: cmd.vertex_count,
                        vertices_per_instance: 4,
                        stride_bytes: 52,
                        depth_test: true,
                        depth_write: true,
                        depth_compare: DepthCompare::LessEqual,
                        color_src_factor: BlendFactor::SrcAlpha,
                        color_dst_factor: BlendFactor::OneMinusSrcAlpha,
                        alpha_src_factor: BlendFactor::One,
                        alpha_dst_factor: BlendFactor::One,
                    },
                ),
            },
    {
        match &self.draw {
            None => None,
            Some(cmd) => Some(
                DrawParams {
                    buffer: cmd.buffer,
                    instance_count: cmd.vertex_count,
                    vertices_per_instance: 4,
                    stride_bytes: 52,
                    depth_test: true,
                    depth_write: true,
                    depth_compare: DepthCompare::LessEqual,
                    color_src_factor: BlendFactor::SrcAlpha,
                    color_dst_factor: BlendFactor::OneMinusSrcAlpha,
                    alpha_src_factor: BlendFactor::One,
                    alpha_dst_factor: BlendFactor::One,
                },
            ),
        }
    }
}

/// The depth stored at a pixel two quads cover, after drawing `second` over
/// `first` under the less-or-equal depth test with depth writes enabled,
/// starting from a cleared depth no smaller than either.
pub open spec fn overlap_winner(first: Rat, second: Rat) -> Rat {
    if spec_rat_le(second, first) {
        second
    } else {
        first
    }
}

/// Under the less-or-equal depth test the draw call uses, the quad with the
/// smaller depth owns an overlapped fragment whichever order the two quads
/// are drawn in: depth decides visibility, not queue order.
pub proof fn lemma_depth_order_independent(za: Rat, zb: Rat)
    requires
        za.wf(),
        zb.wf(),
        spec_rat_lt(za, zb),
    ensures
        overlap_winner(za, zb) == za,
        overlap_winner(zb, za) == za,
{
}

} // verus!
