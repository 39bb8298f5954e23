//! The resource-layout registry: the binding shapes each pass' shader
//! expects and the vertex-buffer layouts of the three vertex streams,
//! declared once as plain data with proved shapes. The executor turns each
//! descriptor into the GPU's own layout objects; a pass whose bindings
//! disagree with its declared shape cannot be constructed.

use vstd::prelude::*;

verus! {

/// What one binding slot holds.
#[derive(Clone, Copy, PartialEq, Eq, Structural, Debug)]
pub enum BindingKind {
    UniformBuffer,
    Texture2d,
    TextureCube,
    DepthTexture,
    FilteringSampler,
    ComparisonSampler,
}

/// Which shader stages see a binding.
#[derive(Clone, Copy, PartialEq, Eq, Structural, Debug)]
pub struct StageSet {
    pub vertex: bool,
    pub fragment: bool,
}

/// One slot of a resource binding set.
#[derive(Clone, Copy, PartialEq, Eq, Structural, Debug)]
pub struct BindingSlot {
    pub binding: u32,
    pub stages: StageSet,
    pub kind: BindingKind,
}

/// Binding indices in a layout are consecutive from zero.
pub open spec fn bindings_numbered(l: Seq<BindingSlot>) -> bool {
    forall|i: int| 0 <= i < l.len() ==> #[trigger] l[i].binding == i
}

/// The shadow pass' only binding set: the light-space matrix.
pub fn shadow_caster_bind_layout() -> (r: Vec<BindingSlot>)
    ensures
        r@ =~= seq![
            (BindingSlot {
                binding: 0,
                stages: (StageSet { vertex: true, fragment: true }),
                kind: BindingKind::UniformBuffer,
            }),
        ],
        bindings_numbered(r@),
{
    let mut v: Vec<BindingSlot> = Vec::new();
    v.push(
        BindingSlot {
            binding: 0,
            stages: StageSet { vertex: true, fragment: true },
            kind: BindingKind::UniformBuffer,
        },
    );
    v
}

/// The geometry pass' first binding set: the camera matrices, the
/// light-space matrix, the material sampler, and the shadow map with its
/// comparison sampler.
pub fn models_bind_0_layout() -> (r: Vec<BindingSlot>)
    ensures
        r@ =~= seq![
            (BindingSlot {
                binding: 0,
                stages: (StageSet { vertex: true, fragment: false }),
                kind: BindingKind::UniformBuffer,
            }),
            (BindingSlot {
                binding: 1,
                stages: (StageSet { vertex: false, fragment: true }),
                kind: BindingKind::UniformBuffer,
            }),
            (BindingSlot {
                binding: 2,
                stages: (StageSet { vertex: false, fragment: true }),
                kind: BindingKind::FilteringSampler,
            }),
            (BindingSlot {
                binding: 3,
                stages: (StageSet { vertex: false, fragment: true }),
                kind: BindingKind::DepthTexture,
            }),
            (BindingSlot {
                binding: 4,
                stages: (StageSet { vertex: false, fragment: true }),
                kind: BindingKind::ComparisonSampler,
            }),
        ],
        bindings_numbered(r@),
{
    let mut v: Vec<BindingSlot> = Vec::new();
    v.push(
        BindingSlot {
            binding: 0,
            stages: StageSet { vertex: true, fragment: false },
            kind: BindingKind::UniformBuffer,
        },
    );
    v.push(
        BindingSlot {
            binding: 1,
            stages: StageSet { vertex: false, fragment: true },
            kind: BindingKind::UniformBuffer,
        },
    );
    v.push(
        BindingSlot {
            binding: 2,
            stages: StageSet { vertex: false, fragment: true },
            kind: BindingKind::FilteringSampler,
        },
    );
    v.push(
        BindingSlot {
            binding: 3,
            stages: StageSet { vertex: false, fragment: true },
            kind: BindingKind::DepthTexture,
        },
    );
    v.push(
        BindingSlot {
            binding: 4,
            stages: StageSet { vertex: false, fragment: true },
            kind: BindingKind::ComparisonSampler,
        },
    );
    v
}

/// The geometry pass' second binding set: the mesh's material texture.
pub fn models_bind_1_layout() -> (r: Vec<BindingSlot>)
    ensures
        r@ =~= seq![
            (BindingSlot {
                binding: 0,
                stages: (StageSet { vertex: false, fragment: true }),
                kind: BindingKind::Texture2d,
            }),
        ],
        bindings_numbered(r@),
{
    let mut v: Vec<BindingSlot> = Vec::new();
    v.push(
        BindingSlot {
            binding: 0,
            stages: StageSet { vertex: false, fragment: true },
            kind: BindingKind::Texture2d,
        },
    );
    v
}

/// The sky pass' binding set: the camera matrices and the cube texture
/// with its sampler.
pub fn skybox_bind_layout() -> (r: Vec<BindingSlot>)
    ensures
        r@ =~= seq![
            (BindingSlot {
                binding: 0,
                stages: (StageSet { vertex: true, fragment: false }),
                kind: BindingKind::UniformBuffer,
            }),
            (BindingSlot {
                binding: 1,
                stages: (StageSet { vertex: false, fragment: true }),
                kind: BindingKind::TextureCube,
            }),
            (BindingSlot {
                binding: 2,
                stages: (StageSet { vertex: false, fragment: true }),
                kind: BindingKind::FilteringSampler,
            }),
        ],
        bindings_numbered(r@),
{
    let mut v: Vec<BindingSlot> = Vec::new();
    v.push(
        BindingSlot {
            binding: 0,
            stages: StageSet { vertex: true, fragment: false },
            kind: BindingKind::UniformBuffer,
        },
    );
    v.push(
        BindingSlot {
            binding: 1,
            stages: StageSet { vertex: false, fragment: true },
            kind: BindingKind::TextureCube,
        },
    );
    v.push(
        BindingSlot {
            binding: 2,
            stages: StageSet { vertex: false, fragment: true },
            kind: BindingKind::FilteringSampler,
        },
    );
    v
}

/// The color-correction pass' binding set: the composed color texture, its
/// sampler, and the correction parameters.
pub fn color_correction_bind_layout() -> (r: Vec<BindingSlot>)
    ensures
        r@ =~= seq![
            (BindingSlot {
                binding: 0,
                stages: (StageSet { vertex: false, fragment: true }),
                kind: BindingKind::Texture2d,
            }),
            (BindingSlot {
                binding: 1,
                stages: (StageSet { vertex: false, fragment: true }),
                kind: BindingKind::FilteringSampler,
            }),
            (BindingSlot {
                binding: 2,
                stages: (StageSet { vertex: false, fragment: true }),
                kind: BindingKind::UniformBuffer,
            }),
        ],
        bindings_numbered(r@),
{
    let mut v: Vec<BindingSlot> = Vec::new();
    v.push(
        BindingSlot {
            binding: 0,
            stages: StageSet { vertex: false, fragment: true },
            kind: BindingKind::Texture2d,
        },
    );
    v.push(
        BindingSlot {
            binding: 1,
            stages: StageSet { vertex: false, fragment: true },
            kind: BindingKind::FilteringSampler,
        },
    );
    v.push(
        BindingSlot {
            binding: 2,
            stages: StageSet { vertex: false, fragment: true },
            kind: BindingKind::UniformBuffer,
        },
    );
    v
}

/// The generic flat-texture binding set: a sampled texture and its
/// filtering sampler, both for the fragment stage.
pub fn generic_texture_bind_layout() -> (r: Vec<BindingSlot>)
    ensures
        r@ =~= seq![
            (BindingSlot {
                binding: 0,
                stages: (StageSet { vertex: false, fragment: true }),
                kind: BindingKind::Texture2d,
            }),
            (BindingSlot {
                binding: 1,
                stages: (StageSet { vertex: false, fragment: true }),
                kind: BindingKind::FilteringSampler,
            }),
        ],
        bindings_numbered(r@),
{
    let mut v: Vec<BindingSlot> = Vec::new();
    v.push(
        BindingSlot {
            binding: 0,
            stages: StageSet { vertex: false, fragment: true },
            kind: BindingKind::Texture2d,
        },
    );
    v.push(
        BindingSlot {
            binding: 1,
            stages: StageSet { vertex: false, fragment: true },
            kind: BindingKind::FilteringSampler,
        },
    );
    v
}

/// The generic cube-texture binding set: a cube texture and its filtering
/// sampler, both for the fragment stage.
pub fn cube_texture_bind_layout() -> (r: Vec<BindingSlot>)
    ensures
        r@ =~= seq![
            (BindingSlot {
                binding: 0,
                stages: (StageSet { vertex: false, fragment: true }),
                kind: BindingKind::TextureCube,
            }),
            (BindingSlot {
                binding: 1,
                stages: (StageSet { vertex: false, fragment: true }),
                kind: BindingKind::FilteringSampler,
            }),
        ],
        bindings_numbered(r@),
{
    let mut v: Vec<BindingSlot> = Vec::new();
    v.push(
        BindingSlot {
            binding: 0,
            stages: StageSet { vertex: false, fragment: true },
            kind: BindingKind::TextureCube,
        },
    );
    v.push(
        BindingSlot {
            binding: 1,
            stages: StageSet { vertex: false, fragment: true },
            kind: BindingKind::FilteringSampler,
        },
    );
    v
}

/// Assigns consecutive binding indices to a list of slot shapes, the way a
/// binding set is assembled from its entries in order.
pub fn number_bindings(entries: Vec<(StageSet, BindingKind)>) -> (r: Vec<BindingSlot>)
    requires
        entries@.len() <= u32::MAX,
    ensures
        r@.len() == entries@.len(),
        bindings_numbered(r@),
        forall|i: int| 0 <= i < r@.len() ==> #[trigger] r@[i].stages == entries@[i].0,
        forall|i: int| 0 <= i < r@.len() ==> #[trigger] r@[i].kind == entries@[i].1,
{
    let mut out: Vec<BindingSlot> = Vec::new();
    let mut i: usize = 0;
    while i < entries.len()
        invariant
            0 <= i <= entries@.len(),
            entries@.len() <= u32::MAX,
            out@.len() == i,
            forall|j: int| 0 <= j < i ==> #[trigger] out@[j].binding == j,
            forall|j: int| 0 <= j < i ==> #[trigger] out@[j].stages == entries@[j].0,
            forall|j: int| 0 <= j < i ==> #[trigger] out@[j].kind == entries@[j].1,
        decreases entries@.len() - i,
    {
        let ghost prev = out@;
        let entry = entries[i];
        let stages = entry.0;
        let kind = entry.1;
        proof {
            assert(stages == entries@[i as int].0);
            assert(kind == entries@[i as int].1);
        }
        out.push(BindingSlot { binding: i as u32, stages, kind });
        proof {
            assert forall|j: int| 0 <= j < i + 1 implies #[trigger] out@[j].stages
                == entries@[j].0 && out@[j].kind == entries@[j].1 by {
                if j < i {
                    assert(prev[j].stages == entries@[j].0);
                    assert(prev[j].kind == entries@[j].1);
                    assert(out@[j] == prev[j]);
                } else {
                    assert(out@[j] == (BindingSlot { binding: i as u32, stages, kind }));
                }
            }
            assert(forall|j: int| 0 <= j < i + 1 ==> #[trigger] out@[j].stages == entries@[j].0);
            assert(forall|j: int| 0 <= j < i + 1 ==> #[trigger] out@[j].kind == entries@[j].1);
        }
        i = i + 1;
    }
    out
}

/// The data type of one vertex attribute.
#[derive(Clone, Copy, PartialEq, Eq, Structural, Debug)]
pub enum VertexFormat {
    F32x2,
    F32x3,
    F32x4,
}

/// Whether a vertex buffer advances per vertex or per instance.
#[derive(Clone, Copy, PartialEq, Eq, Structural, Debug)]
pub enum VertexStep {
    PerVertex,
    PerInstance,
}

/// One vertex attribute: its shader location, its byte offset in the
/// stride, and its format.
#[derive(Clone, Copy, PartialEq, Eq, Structural, Debug)]
pub struct VertexAttribute {
    pub location: u32,
    pub offset: u32,
    pub format: VertexFormat,
}

/// One vertex buffer's layout.
pub struct VertexLayoutDesc {
    pub stride: u32,
    pub step: VertexStep,
    pub attributes: Vec<VertexAttribute>,
}

/// The byte size of one attribute format.
pub open spec fn spec_format_size(f: VertexFormat) -> int {
    match f {
        VertexFormat::F32x2 => 8,
        VertexFormat::F32x3 => 12,
        VertexFormat::F32x4 => 16,
    }
}

/// The byte size of one attribute format.
pub fn format_size(f: VertexFormat) -> (r: u32)
    ensures
        r == spec_format_size(f),
{
    match f {
        VertexFormat::F32x2 => 8,
        VertexFormat::F32x3 => 12,
        VertexFormat::F32x4 => 16,
    }
}

/// A layout is packed: attributes sit back to back from offset zero and
/// fill the stride exactly.
pub open spec fn layout_packed(l: VertexLayoutDesc) -> bool {
    &&& forall|i: int|
        0 <= i < l.attributes@.len() ==> #[trigger] l.attributes@[i].offset == spec_prefix_size(
            l.attributes@,
            i,
        )
    &&& l.stride == spec_prefix_size(l.attributes@, l.attributes@.len() as int)
}

/// The total byte size of the first `n` attributes.
pub open spec fn spec_prefix_size(attrs: Seq<VertexAttribute>, n: int) -> int
    decreases n,
{
    if n <= 0 {
        0
    } else {
        spec_prefix_size(attrs, n - 1) + spec_format_size(attrs[n - 1].format)
    }
}

/// The basic vertex stream: one position per vertex.
pub fn basic_vertex_layout() -> (r: VertexLayoutDesc)
    ensures
        r.stride == 12,
        r.step == VertexStep::PerVertex,
        r.attributes@ =~= seq![
            (VertexAttribute { location: 0, offset: 0, format: VertexFormat::F32x3 }),
        ],
        layout_packed(r),
{
    let mut attributes: Vec<VertexAttribute> = Vec::new();
    attributes.push(VertexAttribute { location: 0, offset: 0, format: VertexFormat::F32x3 });
    let r = VertexLayoutDesc { stride: 12, step: VertexStep::PerVertex, attributes };
    proof {
        lemma_prefix_unfold(r.attributes@);
    }
    r
}

/// The extended vertex stream: texture coordinates and a normal per
/// vertex.
pub fn extended_vertex_layout() -> (r: VertexLayoutDesc)
    ensures
        r.stride == 20,
        r.step == VertexStep::PerVertex,
        r.attributes@ =~= seq![
            (VertexAttribute { location: 1, offset: 0, format: VertexFormat::F32x2 }),
            (VertexAttribute { location: 2, offset: 8, format: VertexFormat::F32x3 }),
        ],
        layout_packed(r),
{
    let mut attributes: Vec<VertexAttribute> = Vec::new();
    attributes.push(VertexAttribute { location: 1, offset: 0, format: VertexFormat::F32x2 });
    attributes.push(VertexAttribute { location: 2, offset: 8, format: VertexFormat::F32x3 });
    let r = VertexLayoutDesc { stride: 20, step: VertexStep::PerVertex, attributes };
    proof {
        lemma_prefix_unfold(r.attributes@);
    }
    r
}

/// The instance stream: the four columns of the model matrix, advancing
/// per instance.
pub fn instance_vertex_layout() -> (r: VertexLayoutDesc)
    ensures
        r.stride == 64,
        r.step == VertexStep::PerInstance,
        r.attributes@ =~= seq![
            (VertexAttribute { location: 3, offset: 0, format: VertexFormat::F32x4 }),
            (VertexAttribute { location: 4, offset: 16, format: VertexFormat::F32x4 }),
            (VertexAttribute { location: 5, offset: 32, format: VertexFormat::F32x4 }),
            (VertexAttribute { location: 6, offset: 48, format: VertexFormat::F32x4 }),
        ],
        layout_packed(r),
{
    let mut attributes: Vec<VertexAttribute> = Vec::new();
    attributes.push(VertexAttribute { location: 3, offset: 0, format: VertexFormat::F32x4 });
    attributes.push(VertexAttribute { location: 4, offset: 16, format: VertexFormat::F32x4 });
    attributes.push(VertexAttribute { location: 5, offset: 32, format: VertexFormat::F32x4 });
    attributes.push(VertexAttribute { location: 6, offset: 48, format: VertexFormat::F32x4 });
    let r = VertexLayoutDesc { stride: 64, step: VertexStep::PerInstance, attributes };
    proof {
        lemma_prefix_unfold(r.attributes@);
    }
    r
}

/// Spells out the prefix sizes of a short attribute sequence, so that
/// `layout_packed` follows by computation.
proof fn lemma_prefix_unfold(attrs: Seq<VertexAttribute>)
    requires
        attrs.len() <= 4,
    ensures
        spec_prefix_size(attrs, 0) == 0,
        attrs.len() >= 1 ==> spec_prefix_size(attrs, 1) == spec_format_size(attrs[0].format),
        attrs.len() >= 2 ==> spec_prefix_size(attrs, 2) == spec_format_size(attrs[0].format)
            + spec_format_size(attrs[1].format),
        attrs.len() >= 3 ==> spec_prefix_size(attrs, 3) == spec_format_size(attrs[0].format)
            + spec_format_size(attrs[1].format) + spec_format_size(attrs[2].format),
        attrs.len() >= 4 ==> spec_prefix_size(attrs, 4) == spec_format_size(attrs[0].format)
            + spec_format_size(attrs[1].format) + spec_format_size(attrs[2].format)
            + spec_format_size(attrs[3].format),
{
    reveal_with_fuel(spec_prefix_size, 5);
}

} // verus!
