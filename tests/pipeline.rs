use ronin::config::MsaaMode;
use ronin::graphics::{PipelineKind, ShaderStage};
use ronin::pipeline::{create_shader_bundle, pipeline_descriptor, shader_path_in, shader_source_path, CullMode};

#[test]
fn shader_paths_use_the_lower_cased_name() {
    assert_eq!(
        shader_source_path("Lambert", ShaderStage::Vertex),
        "db/shaders/fixed_pipelines/lambert/shader.vert.glsl"
    );
    assert_eq!(
        shader_source_path("PBR_Metal", ShaderStage::Fragment),
        "db/shaders/fixed_pipelines/pbr_metal/shader.frag.glsl"
    );
    assert_eq!(shader_path_in("x", ShaderStage::Fragment), "db/shaders/fixed_pipelines/x/shader.frag.glsl");
}

#[test]
fn lambert_bundle() {
    let b = create_shader_bundle(PipelineKind::Lambert, MsaaMode::X4);
    assert_eq!(b.vertex_source, "db/shaders/fixed_pipelines/lambert/shader.vert.glsl");
    assert_eq!(b.fragment_source, "db/shaders/fixed_pipelines/lambert/shader.frag.glsl");
    assert_eq!(b.entry_point, "main");
    assert_eq!(b.sample_count, 4);
    assert_eq!(b.descriptor.push_constant_ranges[0].end, 128);
    let d = pipeline_descriptor(PipelineKind::Lambert);
    assert_eq!(d.vertex_stride, 24);
    assert_eq!(d.primitive.cull_mode, CullMode::Back);
    assert_eq!(d.material_bindings.len(), 2);
    assert!(d.depth.is_some());
}
