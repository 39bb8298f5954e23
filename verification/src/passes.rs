//! Render orchestration as data: the per-frame pass plan, the surface
//! acquire policy, the resize bookkeeping, and the declared shapes of the
//! resource bindings and vertex buffers each pass expects.
//!
//! The executor walks the plan and records one GPU pass per descriptor, in
//! order, on a single in-order queue; everything the passes disagree on —
//! targets, load policies, depth tests, winding — stands here as a value
//! with a proved shape, so a mismatch is impossible to encode.

use vstd::prelude::*;

verus! {

/// The four stages of one frame, in submission order.
#[derive(Clone, Copy, PartialEq, Eq, Structural, Debug)]
pub enum PassKind {
    ShadowDepth,
    Geometry,
    Sky,
    ColorCorrection,
}

/// Which color texture a pass writes.
#[derive(Clone, Copy, PartialEq, Eq, Structural, Debug)]
pub enum ColorTarget {
    MainTexture,
    SurfaceOutput,
}

/// Which depth texture a pass uses.
#[derive(Clone, Copy, PartialEq, Eq, Structural, Debug)]
pub enum DepthTarget {
    ShadowMap,
    MainDepth,
}

/// Whether an attachment is cleared on load or keeps its contents.
#[derive(Clone, Copy, PartialEq, Eq, Structural, Debug)]
pub enum LoadPolicy {
    Clear,
    Keep,
}

/// The depth comparison a pass draws with.
#[derive(Clone, Copy, PartialEq, Eq, Structural, Debug)]
pub enum DepthCompare {
    Less,
    LessEqual,
}

/// The front-face winding of a pass' geometry.
#[derive(Clone, Copy, PartialEq, Eq, Structural, Debug)]
pub enum FaceWinding {
    CounterClockwise,
    Clockwise,
}

/// Everything the executor needs to open and drive one render pass.
#[derive(Clone, Copy, Debug)]
pub struct PassDesc {
    pub kind: PassKind,
    pub color: Option<(ColorTarget, LoadPolicy)>,
    pub depth: Option<(DepthTarget, LoadPolicy)>,
    pub depth_compare: DepthCompare,
    pub depth_write: bool,
    pub winding: FaceWinding,
    /// Geometry draws only the culled subset; the shadow pass draws every
    /// instance.
    pub draws_culled_subset: bool,
    /// Constant depth bias, applied only when rendering the shadow map.
    pub depth_bias: i64,
}

/// The shadow pass: depth only, into the shadow map, cleared, with a bias
/// against acne under bilinear comparison sampling.
pub open spec fn spec_shadow_pass() -> PassDesc {
    PassDesc {
        kind: PassKind::ShadowDepth,
        color: None,
        depth: Some((DepthTarget::ShadowMap, LoadPolicy::Clear)),
        depth_compare: DepthCompare::LessEqual,
        depth_write: true,
        winding: FaceWinding::CounterClockwise,
        draws_culled_subset: false,
        depth_bias: 2,
    }
}

/// The geometry pass: clears color and depth and draws the culled
/// instances.
pub open spec fn spec_geometry_pass() -> PassDesc {
    PassDesc {
        kind: PassKind::Geometry,
        color: Some((ColorTarget::MainTexture, LoadPolicy::Clear)),
        depth: Some((DepthTarget::MainDepth, LoadPolicy::Clear)),
        depth_compare: DepthCompare::Less,
        depth_write: true,
        winding: FaceWinding::CounterClockwise,
        draws_culled_subset: true,
        depth_bias: 0,
    }
}

/// The sky pass: keeps color and depth and paints only the pixels the
/// geometry left at the far depth, with the reversed winding of the
/// full-screen-triangle trick.
pub open spec fn spec_sky_pass() -> PassDesc {
    PassDesc {
        kind: PassKind::Sky,
        color: Some((ColorTarget::MainTexture, LoadPolicy::Keep)),
        depth: Some((DepthTarget::MainDepth, LoadPolicy::Keep)),
        depth_compare: DepthCompare::LessEqual,
        depth_write: true,
        winding: FaceWinding::Clockwise,
        draws_culled_subset: false,
        depth_bias: 0,
    }
}

/// The color-correction pass: a full-screen pass without depth, reading
/// the composed color and writing the presentable surface.
pub open spec fn spec_color_correction_pass() -> PassDesc {
    PassDesc {
        kind: PassKind::ColorCorrection,
        color: Some((ColorTarget::SurfaceOutput, LoadPolicy::Keep)),
        depth: None,
        depth_compare: DepthCompare::Less,
        depth_write: false,
        winding: FaceWinding::CounterClockwise,
        draws_culled_subset: false,
        depth_bias: 0,
    }
}

/// The plan of one frame: all four passes in order on a renderable
/// surface, and nothing at all on a zero-area one.
pub open spec fn spec_frame_plan(width: u32, height: u32) -> Seq<PassDesc> {
    if width == 0 || height == 0 {
        Seq::empty()
    } else {
        seq![
            spec_shadow_pass(),
            spec_geometry_pass(),
            spec_sky_pass(),
            spec_color_correction_pass(),
        ]
    }
}

/// Builds the pass plan for one frame. A surface with a zero dimension
/// yields an empty plan: no pass is recorded and nothing is submitted.
pub fn build_frame_plan(width: u32, height: u32) -> (r: Vec<PassDesc>)
    ensures
        r@ == spec_frame_plan(width, height),
        width == 0 || height == 0 ==> r@.len() == 0,
{
    let mut plan: Vec<PassDesc> = Vec::new();
    if width == 0 || height == 0 {
        proof {
            assert(plan@ =~= spec_frame_plan(width, height));
        }
        return plan;
    }
    plan.push(
        PassDesc {
            kind: PassKind::ShadowDepth,
            color: None,
            depth: Some((DepthTarget::ShadowMap, LoadPolicy::Clear)),
            depth_compare: DepthCompare::LessEqual,
            depth_write: true,
            winding: FaceWinding::CounterClockwise,
            draws_culled_subset: false,
            depth_bias: 2,
        },
    );
    plan.push(
        PassDesc {
            kind: PassKind::Geometry,
            color: Some((ColorTarget::MainTexture, LoadPolicy::Clear)),
            depth: Some((DepthTarget::MainDepth, LoadPolicy::Clear)),
            depth_compare: DepthCompare::Less,
            depth_write: true,
            winding: FaceWinding::CounterClockwise,
            draws_culled_subset: true,
            depth_bias: 0,
        },
    );
    plan.push(
        PassDesc {
            kind: PassKind::Sky,
            color: Some((ColorTarget::MainTexture, LoadPolicy::Keep)),
            depth: Some((DepthTarget::MainDepth, LoadPolicy::Keep)),
            depth_compare: DepthCompare::LessEqual,
            depth_write: true,
            winding: FaceWinding::Clockwise,
            draws_culled_subset: false,
            depth_bias: 0,
        },
    );
    plan.push(
        PassDesc {
            kind: PassKind::ColorCorrection,
            color: Some((ColorTarget::SurfaceOutput, LoadPolicy::Keep)),
            depth: None,
            depth_compare: DepthCompare::Less,
            depth_write: false,
            winding: FaceWinding::CounterClockwise,
            draws_culled_subset: false,
            depth_bias: 0,
        },
    );
    proof {
        assert(plan@ =~= spec_frame_plan(width, height));
    }
    plan
}

/// The hard ordering invariant of the frame: on a renderable surface the
/// plan is exactly shadow depth, then geometry, then sky, then color
/// correction; the shadow pass alone uses the dedicated shadow depth
/// texture while geometry and sky share the main depth buffer; sky keeps
/// what geometry drew; and only the final pass touches the presentable
/// surface.
pub proof fn lemma_plan_well_formed(width: u32, height: u32)
    requires
        width > 0,
        height > 0,
    ensures
        ({
            let plan = spec_frame_plan(width, height);
            &&& plan.len() == 4
            &&& plan[0].kind == PassKind::ShadowDepth
            &&& plan[1].kind == PassKind::Geometry
            &&& plan[2].kind == PassKind::Sky
            &&& plan[3].kind == PassKind::ColorCorrection
            &&& plan[0].color is None
            &&& plan[0].depth == Some((DepthTarget::ShadowMap, LoadPolicy::Clear))
            &&& plan[1].color == Some((ColorTarget::MainTexture, LoadPolicy::Clear))
            &&& plan[1].depth == Some((DepthTarget::MainDepth, LoadPolicy::Clear))
            &&& plan[2].color == Some((ColorTarget::MainTexture, LoadPolicy::Keep))
            &&& plan[2].depth == Some((DepthTarget::MainDepth, LoadPolicy::Keep))
            &&& plan[3].color == Some((ColorTarget::SurfaceOutput, LoadPolicy::Keep))
            &&& plan[3].depth is None
            &&& forall|i: int|
                0 <= i < 4 ==> (#[trigger] plan[i].depth == Some(
                    (DepthTarget::ShadowMap, LoadPolicy::Clear),
                )) == (plan[i].kind == PassKind::ShadowDepth)
            &&& forall|i: int|
                0 <= i < 4 ==> (#[trigger] plan[i].color matches Some((ColorTarget::SurfaceOutput, _)))
                    == (i == 3)
        }),
{
}

/// The GPU buffers overwritten in place before the passes run, in order:
/// the culled instance transforms, the camera matrices, the shadow-caster
/// matrix.
#[derive(Clone, Copy, PartialEq, Eq, Structural, Debug)]
pub enum BufferKind {
    CulledInstances,
    CameraUniform,
    ShadowCasterUniform,
}

/// The buffer overwrites of one frame, in order.
pub fn frame_buffer_updates() -> (r: Vec<BufferKind>)
    ensures
        r@ =~= seq![
            BufferKind::CulledInstances,
            BufferKind::CameraUniform,
            BufferKind::ShadowCasterUniform,
        ],
{
    let mut v: Vec<BufferKind> = Vec::new();
    v.push(BufferKind::CulledInstances);
    v.push(BufferKind::CameraUniform);
    v.push(BufferKind::ShadowCasterUniform);
    v
}

/// What acquiring the presentable surface reported.
#[derive(Clone, Copy, PartialEq, Eq, Structural, Debug)]
pub enum SurfaceEvent {
    Acquired,
    Lost,
    Outdated,
    OutOfMemory,
    OtherError,
}

/// What the frame loop must do about it.
#[derive(Clone, Copy, PartialEq, Eq, Structural, Debug)]
pub enum SurfaceAction {
    /// Render this frame with the acquired texture.
    Render,
    /// Reconfigure the surface and its dependent resources, then retry the
    /// acquire once.
    ReconfigureAndRetry,
    /// Exit the process in an orderly way.
    Exit,
    /// Surface the condition as a fatal error.
    Abort,
}

/// The surface recovery policy: a lost or outdated surface is reconfigured
/// and retried once, and only once — a second failure is fatal; memory
/// exhaustion exits; anything else is surfaced as an error.
pub fn handle_surface_acquire(event: SurfaceEvent, already_retried: bool) -> (r: SurfaceAction)
    ensures
        event == SurfaceEvent::Acquired ==> r == SurfaceAction::Render,
        (event == SurfaceEvent::Lost || event == SurfaceEvent::Outdated) && !already_retried ==> r
            == SurfaceAction::ReconfigureAndRetry,
        (event == SurfaceEvent::Lost || event == SurfaceEvent::Outdated) && already_retried ==> r
            == SurfaceAction::Abort,
        event == SurfaceEvent::OutOfMemory ==> r == SurfaceAction::Exit,
        event == SurfaceEvent::OtherError ==> r == SurfaceAction::Abort,
{
    match event {
        SurfaceEvent::Acquired => SurfaceAction::Render,
        SurfaceEvent::Lost | SurfaceEvent::Outdated => {
            if already_retried {
                SurfaceAction::Abort
            } else {
                SurfaceAction::ReconfigureAndRetry
            }
        },
        SurfaceEvent::OutOfMemory => SurfaceAction::Exit,
        SurfaceEvent::OtherError => SurfaceAction::Abort,
    }
}

/// The surface's current dimensions as the frame loop tracks them.
#[derive(Clone, Copy, PartialEq, Eq, Structural, Debug)]
pub struct SurfaceState {
    pub width: u32,
    pub height: u32,
}

/// A surface can be rendered to only when both dimensions are positive.
pub open spec fn renderable(s: SurfaceState) -> bool {
    s.width > 0 && s.height > 0
}

impl SurfaceState {
    /// Records a resize. Returns whether the surface must be reconfigured
    /// and its depth-sized resources recreated — which is the case exactly
    /// when the new size is renderable; a zero-area size is a defined
    /// no-render state, not an error.
    pub fn apply_resize(&mut self, new_width: u32, new_height: u32) -> (r: bool)
        ensures
            final(self).width == new_width,
            final(self).height == new_height,
            r == renderable(*final(self)),
    {
        self.width = new_width;
        self.height = new_height;
        self.width > 0 && self.height > 0
    }

    /// Whether a frame may be rendered at the current size.
    pub fn should_render(&self) -> (r: bool)
        ensures
            r == renderable(*self),
    {
        self.width > 0 && self.height > 0
    }
}

/// The fixed-point aspect ratio of a renderable surface.
pub fn aspect_ratio_fx(width: u32, height: u32) -> (r: i64)
    requires
        height > 0,
    ensures
        r == (width as int) * (crate::fixed::SCALE as int) / (height as int),
        0 <= r,
{
    let w = (width as u64) * 65536u64;
    let q = w / (height as u64);
    proof {
        vstd::arithmetic::div_mod::lemma_div_pos_is_pos(w as int, height as int);
        crate::fixed::lemma_div_one_keeps(w as int, height as int);
    }
    q as i64
}

/// Picks the surface format: the first sRGB-capable one, or the first
/// offered format when none is.
pub fn select_srgb_format_index(is_srgb: &Vec<bool>) -> (r: usize)
    requires
        is_srgb@.len() >= 1,
    ensures
        r < is_srgb@.len(),
        is_srgb@[r as int] ==> forall|j: int| 0 <= j < r ==> !is_srgb@[j],
        !is_srgb@[r as int] ==> r == 0 && forall|j: int| 0 <= j < is_srgb@.len() ==> !is_srgb@[j],
{
    let mut i: usize = 0;
    while i < is_srgb.len()
        invariant
            0 <= i <= is_srgb@.len(),
            forall|j: int| 0 <= j < i ==> !is_srgb@[j],
        decreases is_srgb@.len() - i,
    {
        if is_srgb[i] {
            return i;
        }
        i = i + 1;
    }
    0
}

} // verus!
