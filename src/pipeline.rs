use vstd::prelude::*;
use vstd::string::StringExecFns;
use crate::config::MsaaMode;
use crate::graphics::{PipelineKind, ShaderStage};

verus! {

/// Entry point of every shader stage.
pub const SHADER_ENTRY: &'static str = "main";

/// Directory holding the fixed pipelines' shader sources, one sub-directory per pipeline.
pub const FIXED_PIPELINES_ROOT: &'static str = "db/shaders/fixed_pipelines/";

/// The result of lower-casing a string as `str::to_lowercase` does.
pub uninterp spec fn lower_of(s: Seq<char>) -> Seq<char>;

/// Relies on `str::to_lowercase`: its result depends on the characters of `s` alone.
#[verifier::external_body]
fn lowercase(s: &str) -> (r: String)
    ensures
        r@ == lower_of(s@),
{
    s.to_lowercase()
}

pub open spec fn spec_stage_id(stage: ShaderStage) -> Seq<char> {
    match stage {
        ShaderStage::Vertex => "vert"@,
        ShaderStage::Fragment => "frag"@,
    }
}

/// The file-name tag of a shader stage.
pub fn stage_id(stage: ShaderStage) -> (r: &'static str)
    ensures
        r@ == spec_stage_id(stage),
{
    proof {
        reveal_strlit("vert");
        reveal_strlit("frag");
    }
    match stage {
        ShaderStage::Vertex => "vert",
        ShaderStage::Fragment => "frag",
    }
}

/// `<root><dir>/shader.<stage>.glsl`.
pub open spec fn spec_shader_path(dir: Seq<char>, stage: ShaderStage) -> Seq<char> {
    FIXED_PIPELINES_ROOT@ + dir + "/shader."@ + spec_stage_id(stage) + ".glsl"@
}

/// The source file of `stage` of the pipeline whose directory name is `dir`.
pub fn shader_path_in(dir: &str, stage: ShaderStage) -> (r: String)
    ensures
        r@ == spec_shader_path(dir@, stage),
{
    let mut path = String::from_str(FIXED_PIPELINES_ROOT);
    path.append(dir);
    path.append("/shader.");
    path.append(stage_id(stage));
    path.append(".glsl");
    proof {
        reveal_strlit("/shader.");
        reveal_strlit(".glsl");
    }
    assert(path@ =~= spec_shader_path(dir@, stage));
    path
}

/// The source file of `stage` of the pipeline named `name`: its directory is the
/// lower-cased name.
pub fn shader_source_path(name: &str, stage: ShaderStage) -> (r: String)
    ensures
        r@ == spec_shader_path(lower_of(name@), stage),
{
    let dir = lowercase(name);
    shader_path_in(dir.as_str(), stage)
}

pub open spec fn spec_pipeline_name(kind: PipelineKind) -> Seq<char> {
    match kind {
        PipelineKind::Lambert => "Lambert"@,
    }
}

/// The name a pipeline kind is known by; it also locates its shader sources.
pub fn pipeline_name(kind: PipelineKind) -> (r: &'static str)
    ensures
        r@ == spec_pipeline_name(kind),
{
    proof {
        reveal_strlit("Lambert");
    }
    match kind {
        PipelineKind::Lambert => "Lambert",
    }
}

#[derive(Clone, Copy, Debug, PartialEq, Eq, Structural)]
pub enum Topology {
    TriangleList,
    TriangleStrip,
}

#[derive(Clone, Copy, Debug, PartialEq, Eq, Structural)]
pub enum FrontFace {
    Ccw,
    Cw,
}

#[derive(Clone, Copy, Debug, PartialEq, Eq, Structural)]
pub enum CullMode {
    Disabled,
    Front,
    Back,
}

/// Primitive assembly and rasterisation state; polygons are always filled.
#[derive(Clone, Copy, Debug, PartialEq, Eq, Structural)]
pub struct PrimitiveState {
    pub topology: Topology,
    pub front_face: FrontFace,
    pub cull_mode: CullMode,
}

#[derive(Clone, Copy, Debug, PartialEq, Eq, Structural)]
pub enum VertexFormat {
    Float2,
    Float4,
}

#[derive(Clone, Copy, Debug, PartialEq, Eq, Structural)]
pub struct VertexAttribute {
    pub location: u32,
    pub format: VertexFormat,
    pub offset: u64,
}

/// What a material bound to a pipeline slot supplies.
#[derive(Clone, Copy, Debug, PartialEq, Eq, Structural)]
pub enum BindingKind {
    /// A filterable two-dimensional float texture.
    Texture2d,
    /// A filtering, non-comparison sampler.
    Sampler,
}

#[derive(Clone, Copy, Debug, PartialEq, Eq, Structural)]
pub struct BindingEntry {
    pub binding: u32,
    pub visibility: ShaderStage,
    pub kind: BindingKind,
}

/// A byte range of push constants and the stage that reads it.
#[derive(Clone, Copy, Debug, PartialEq, Eq, Structural)]
pub struct PushConstantRange {
    pub stage: ShaderStage,
    pub start: u32,
    pub end: u32,
}

/// Depth state: a 32-bit float depth buffer, written, passing nearer fragments; the
/// stencil is ignored.
#[derive(Clone, Copy, Debug, PartialEq, Eq, Structural)]
pub struct DepthState {
    pub write_enabled: bool,
    pub compare_less: bool,
}

/// The declarative description of a fixed-function pipeline.
#[derive(Clone, Debug)]
pub struct PipelineDescriptor {
    pub kind: PipelineKind,
    pub is_surface_pipeline: bool,
    pub material_bindings: Vec<BindingEntry>,
    pub primitive: PrimitiveState,
    pub vertex_stride: u64,
    pub vertex_attributes: Vec<VertexAttribute>,
    pub push_constant_ranges: Vec<PushConstantRange>,
    pub depth: Option<DepthState>,
}

/// The Lambert pipeline: draws to the surface, takes an albedo texture and sampler
/// per material, reads positions (four floats) and texture coordinates (two floats)
/// per vertex, and receives the world and view-projection matrices (128 bytes) as
/// vertex-stage push constants.
pub open spec fn spec_lambert(d: PipelineDescriptor) -> bool {
    &&& d.kind == PipelineKind::Lambert
    &&& d.is_surface_pipeline
    &&& d.material_bindings@ == seq![
        BindingEntry { binding: 0, visibility: ShaderStage::Fragment, kind: BindingKind::Texture2d },
        BindingEntry { binding: 1, visibility: ShaderStage::Fragment, kind: BindingKind::Sampler },
    ]
    &&& d.primitive == PrimitiveState {
        topology: Topology::TriangleList,
        front_face: FrontFace::Ccw,
        cull_mode: CullMode::Back,
    }
    &&& d.vertex_stride == 24
    &&& d.vertex_attributes@ == seq![
        VertexAttribute { location: 0, format: VertexFormat::Float4, offset: 0 },
        VertexAttribute { location: 1, format: VertexFormat::Float2, offset: 16 },
    ]
    &&& d.push_constant_ranges@ == seq![PushConstantRange { stage: ShaderStage::Vertex, start: 0, end: 128 }]
    &&& d.depth == Some(DepthState { write_enabled: true, compare_less: true })
}

pub open spec fn spec_describes(kind: PipelineKind, d: PipelineDescriptor) -> bool {
    match kind {
        PipelineKind::Lambert => spec_lambert(d),
    }
}

/// The descriptor of a pipeline kind.
pub fn pipeline_descriptor(kind: PipelineKind) -> (r: PipelineDescriptor)
    ensures
        spec_describes(kind, r),
{
    match kind {
        PipelineKind::Lambert => {
            let material_bindings = vec![
                BindingEntry { binding: 0, visibility: ShaderStage::Fragment, kind: BindingKind::Texture2d },
                BindingEntry { binding: 1, visibility: ShaderStage::Fragment, kind: BindingKind::Sampler },
            ];
            let vertex_attributes = vec![
                VertexAttribute { location: 0, format: VertexFormat::Float4, offset: 0 },
                VertexAttribute { location: 1, format: VertexFormat::Float2, offset: 16 },
            ];
            let push_constant_ranges = vec![
                PushConstantRange { stage: ShaderStage::Vertex, start: 0, end: 128 },
            ];
            let d = PipelineDescriptor {
                kind,
                is_surface_pipeline: true,
                material_bindings,
                primitive: PrimitiveState {
                    topology: Topology::TriangleList,
                    front_face: FrontFace::Ccw,
                    cull_mode: CullMode::Back,
                },
                vertex_stride: 24,
                vertex_attributes,
                push_constant_ranges,
                depth: Some(DepthState { write_enabled: true, compare_less: true }),
            };
            assert(d.material_bindings@ =~= seq![
                BindingEntry { binding: 0, visibility: ShaderStage::Fragment, kind: BindingKind::Texture2d },
                BindingEntry { binding: 1, visibility: ShaderStage::Fragment, kind: BindingKind::Sampler },
            ]);
            assert(d.vertex_attributes@ =~= seq![
                VertexAttribute { location: 0, format: VertexFormat::Float4, offset: 0 },
                VertexAttribute { location: 1, format: VertexFormat::Float2, offset: 16 },
            ]);
            assert(d.push_constant_ranges@ =~= seq![
                PushConstantRange { stage: ShaderStage::Vertex, start: 0, end: 128 },
            ]);
            d
        },
    }
}

/// Everything needed to build one pipeline bundle: both shader sources, the shared
/// entry point, the declarative state, and the sample count it is built for.
pub struct ShaderBundlePlan {
    pub vertex_source: String,
    pub fragment_source: String,
    pub entry_point: &'static str,
    pub descriptor: PipelineDescriptor,
    pub sample_count: u32,
}

/// Plans the bundle of pipeline `kind` at the configured sample count.
pub fn create_shader_bundle(kind: PipelineKind, msaa: MsaaMode) -> (r: ShaderBundlePlan)
    ensures
        r.vertex_source@ == spec_shader_path(
            lower_of(spec_pipeline_name(kind)),
            ShaderStage::Vertex,
        ),
        r.fragment_source@ == spec_shader_path(
            lower_of(spec_pipeline_name(kind)),
            ShaderStage::Fragment,
        ),
        r.entry_point@ == "main"@,
        spec_describes(kind, r.descriptor),
        r.sample_count == msaa.spec_sample_count(),
{
    let name = pipeline_name(kind);
    proof {
        reveal_strlit("main");
    }
    ShaderBundlePlan {
        vertex_source: shader_source_path(name, ShaderStage::Vertex),
        fragment_source: shader_source_path(name, ShaderStage::Fragment),
        entry_point: SHADER_ENTRY,
        descriptor: pipeline_descriptor(kind),
        sample_count: msaa.sample_count(),
    }
}

} // verus!
