use ronin::config::MsaaMode;
use ronin::frame::{pass_descriptor, ColorImage, DepthAttachment, FrameLedger, LoadOp};
use ronin::graphics::{graphics_tick, DrawItem, PipelineKind, RenderCommand, ShaderStage, ViewSource};

#[test]
fn msaa_off_writes_the_acquired_image_directly() {
    let d = pass_descriptor(MsaaMode::Off, true);
    assert_eq!(d.color, ColorImage::Acquired);
    assert_eq!(d.resolve_target, None);
    assert_eq!(d.color_load, LoadOp::Clear);
    assert_eq!(
        d.depth,
        Some(DepthAttachment { load: LoadOp::Clear, store: false, touches_stencil: false })
    );
}

#[test]
fn msaa_on_resolves_into_the_acquired_image() {
    for m in [MsaaMode::X2, MsaaMode::X4, MsaaMode::X8].iter() {
        let d = pass_descriptor(*m, false);
        assert_eq!(d.color, ColorImage::MultiSample);
        assert_eq!(d.resolve_target, Some(ColorImage::Acquired));
        assert_eq!(d.depth, None);
    }
}

fn items() -> Vec<DrawItem> {
    vec![
        DrawItem { entity: 1, mesh: 10, material: 20, index_count: 36 },
        DrawItem { entity: 2, mesh: 10, material: 21, index_count: 36 },
    ]
}

#[test]
fn acquired_equals_submitted_after_ticks() {
    let mut ledger = FrameLedger::new();
    for n in 0..5u64 {
        let plan = graphics_tick(&mut ledger, MsaaMode::X4, n % 2 == 0, &items());
        assert_eq!(plan.rendered_from_camera, n % 2 == 0);
    }
    assert_eq!(ledger.acquired(), 5);
    assert_eq!(ledger.submitted(), 5);
}

#[test]
fn no_camera_tick_still_ends_its_frame() {
    let mut ledger = FrameLedger::new();
    let plan = graphics_tick(&mut ledger, MsaaMode::Off, false, &Vec::new());
    assert!(!plan.rendered_from_camera);
    let begins = plan.commands.iter().filter(|c| **c == RenderCommand::BeginFrame).count();
    let ends = plan.commands.iter().filter(|c| **c == RenderCommand::EndFrame).count();
    assert_eq!((begins, ends), (1, 1));
    assert_eq!(plan.commands.first(), Some(&RenderCommand::BeginFrame));
    assert_eq!(plan.commands.last(), Some(&RenderCommand::EndFrame));
    assert_eq!(ledger.acquired(), ledger.submitted());
}

#[test]
fn tick_records_draws_in_entity_order() {
    let mut ledger = FrameLedger::new();
    let plan = graphics_tick(&mut ledger, MsaaMode::Off, true, &items());
    let c = &plan.commands;
    assert_eq!(c.len(), 3 + 6 + 4);
    assert_eq!(c[1], RenderCommand::BeginPass(pass_descriptor(MsaaMode::Off, true)));
    assert_eq!(c[2], RenderCommand::SetPipeline(PipelineKind::Lambert));
    assert_eq!(
        c[3],
        RenderCommand::PushConstants { stage: ShaderStage::Vertex, offset: 0, entity: 1, view: ViewSource::Camera }
    );
    assert_eq!(c[4], RenderCommand::SetBindGroup { index: 0, material: 20 });
    assert_eq!(c[5], RenderCommand::DrawIndexed { mesh: 10, index_count: 36, instance_count: 1 });
    assert_eq!(c[7], RenderCommand::SetBindGroup { index: 0, material: 21 });
    assert_eq!(c[9], RenderCommand::EndPass);
    match c[10] {
        RenderCommand::BeginPass(d) => {
            assert_eq!(d.color, ColorImage::Acquired);
            assert_eq!(d.color_load, LoadOp::Load);
            assert_eq!(d.depth, None);
        }
        _ => panic!("overlay pass expected"),
    }
}

#[test]
fn identical_ticks_record_identical_commands() {
    let mut first = FrameLedger::new();
    let mut second = FrameLedger::new();
    for has_camera in [true, false].iter() {
        let a = graphics_tick(&mut first, MsaaMode::X8, *has_camera, &items());
        let b = graphics_tick(&mut second, MsaaMode::X8, *has_camera, &items());
        assert_eq!(a.commands, b.commands);
    }
}

#[test]
fn frame_records_its_passes() {
    let mut ledger = FrameLedger::new();
    let mut frame = ledger.begin_frame(MsaaMode::X2);
    assert_eq!(frame.index(), 0);
    assert_eq!(ledger.acquired(), 1);
    assert_eq!(ledger.submitted(), 0);
    frame.create_pass(true);
    frame.create_overlay_pass();
    assert_eq!(frame.passes().len(), 2);
    let passes = frame.end(&mut ledger);
    assert_eq!(passes.len(), 2);
    assert_eq!(passes[0].color, ColorImage::MultiSample);
    assert_eq!(ledger.submitted(), 1);
}
