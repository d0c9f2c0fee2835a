use vstd::prelude::*;
use crate::config::MsaaMode;
use crate::frame::{spec_overlay_pass, spec_pass_descriptor, Frame, FrameLedger, PassDescriptor};

verus! {

/// Where the view-projection half of a draw's push constants comes from.
#[derive(Clone, Copy, Debug, PartialEq, Eq, Structural)]
pub enum ViewSource {
    /// The camera entity's matrix for this tick.
    Camera,
    /// The identity matrix, used when the scene has no camera.
    Identity,
}

/// Shader stages that read a block of push constants.
#[derive(Clone, Copy, Debug, PartialEq, Eq, Structural)]
pub enum ShaderStage {
    Vertex,
    Fragment,
}

/// The fixed-function pipelines the renderer owns.
#[derive(Clone, Copy, Debug, PartialEq, Eq, Structural)]
pub enum PipelineKind {
    Lambert,
}

/// One renderable entity: its transform and mesh-renderer, reduced to what the draw
/// needs. `index_count` is the number of indices of the entity's mesh.
#[derive(Clone, Copy, Debug, PartialEq, Eq, Structural)]
pub struct DrawItem {
    pub entity: u64,
    pub mesh: u64,
    pub material: u64,
    pub index_count: u32,
}

/// One step of a frame's recording, in submission order.
#[derive(Clone, Copy, Debug, PartialEq, Eq, Structural)]
pub enum RenderCommand {
    BeginFrame,
    BeginPass(PassDescriptor),
    SetPipeline(PipelineKind),
    /// The entity's world matrix followed by the view-projection matrix.
    PushConstants { stage: ShaderStage, offset: u32, entity: u64, view: ViewSource },
    SetBindGroup { index: u32, material: u64 },
    DrawIndexed { mesh: u64, index_count: u32, instance_count: u32 },
    EndPass,
    /// Submission and presentation of the frame.
    EndFrame,
}

pub open spec fn spec_view_source(has_camera: bool) -> ViewSource {
    if has_camera {
        ViewSource::Camera
    } else {
        ViewSource::Identity
    }
}

/// The three commands that draw one entity.
pub open spec fn spec_draw(item: DrawItem, view: ViewSource) -> Seq<RenderCommand> {
    seq![
        RenderCommand::PushConstants { stage: ShaderStage::Vertex, offset: 0, entity: item.entity, view },
        RenderCommand::SetBindGroup { index: 0, material: item.material },
        RenderCommand::DrawIndexed { mesh: item.mesh, index_count: item.index_count, instance_count: 1 },
    ]
}

pub open spec fn spec_draws(items: Seq<DrawItem>, view: ViewSource) -> Seq<RenderCommand>
    decreases items.len(),
{
    if items.len() == 0 {
        Seq::empty()
    } else {
        spec_draws(items.drop_last(), view) + spec_draw(items.last(), view)
    }
}

/// The full recording of one graphics tick: the scene pass with every entity in the
/// given order, then the overlay pass, inside a single frame.
pub open spec fn spec_tick_commands(samples: MsaaMode, has_camera: bool, items: Seq<DrawItem>) -> Seq<
    RenderCommand,
> {
    seq![
        RenderCommand::BeginFrame,
        RenderCommand::BeginPass(spec_pass_descriptor(samples, true)),
        RenderCommand::SetPipeline(PipelineKind::Lambert),
    ] + spec_draws(items, spec_view_source(has_camera)) + seq![
        RenderCommand::EndPass,
        RenderCommand::BeginPass(spec_overlay_pass()),
        RenderCommand::EndPass,
        RenderCommand::EndFrame,
    ]
}

/// What one graphics tick records, and whether it rendered from a camera.
pub struct TickPlan {
    pub commands: Vec<RenderCommand>,
    pub rendered_from_camera: bool,
}

/// Records one graphics tick. The frame is begun and ended exactly once whether or not
/// a camera exists; without one the scene is drawn with the identity view and the tick
/// reports that nothing meaningful was rendered.
pub fn graphics_tick(
    ledger: &mut FrameLedger,
    samples: MsaaMode,
    has_camera: bool,
    items: &Vec<DrawItem>,
) -> (r: TickPlan)
    requires
        old(ledger).wf(),
        old(ledger).idle(),
        old(ledger).spec_acquired() < u64::MAX,
    ensures
        final(ledger).spec_acquired() == old(ledger).spec_acquired() + 1,
        final(ledger).spec_submitted() == old(ledger).spec_submitted() + 1,
        final(ledger).wf(),
        final(ledger).idle(),
        r.commands@ == spec_tick_commands(samples, has_camera, items@),
        r.rendered_from_camera == has_camera,
{
    let view = if has_camera {
        ViewSource::Camera
    } else {
        ViewSource::Identity
    };
    let mut commands: Vec<RenderCommand> = Vec::new();
    let mut frame: Frame = ledger.begin_frame(samples);
    commands.push(RenderCommand::BeginFrame);
    let scene = frame.create_pass(true);
    commands.push(RenderCommand::BeginPass(scene));
    commands.push(RenderCommand::SetPipeline(PipelineKind::Lambert));
    let prefix: Ghost<Seq<RenderCommand>> = Ghost(commands@);
    let mut i: usize = 0;
    while i < items.len()
        invariant
            i <= items.len(),
            commands@ == prefix@ + spec_draws(items@.subrange(0, i as int), view),
        decreases items.len() - i,
    {
        let item = items[i];
        commands.push(
            RenderCommand::PushConstants {
                stage: ShaderStage::Vertex,
                offset: 0,
                entity: item.entity,
                view,
            },
        );
        commands.push(RenderCommand::SetBindGroup { index: 0, material: item.material });
        commands.push(
            RenderCommand::DrawIndexed {
                mesh: item.mesh,
                index_count: item.index_count,
                instance_count: 1,
            },
        );
        proof {
            let s = items@.subrange(0, i as int + 1);
            assert(s.drop_last() =~= items@.subrange(0, i as int));
            assert(s.last() == item);
            assert(commands@ =~= prefix@ + spec_draws(s, view));
        }
        i = i + 1;
    }
    assert(items@.subrange(0, items.len() as int) =~= items@);
    commands.push(RenderCommand::EndPass);
    let overlay = frame.create_overlay_pass();
    commands.push(RenderCommand::BeginPass(overlay));
    commands.push(RenderCommand::EndPass);
    let _passes = frame.end(ledger);
    commands.push(RenderCommand::EndFrame);
    assert(commands@ =~= spec_tick_commands(samples, has_camera, items@));
    TickPlan { commands, rendered_from_camera: has_camera }
}

/// Number of occurrences of `c` in `s`.
pub open spec fn occurrences(s: Seq<RenderCommand>, c: RenderCommand) -> nat
    decreases s.len(),
{
    if s.len() == 0 {
        0
    } else {
        occurrences(s.drop_last(), c) + if s.last() == c { 1nat } else { 0nat }
    }
}

proof fn lemma_occurrences_append(a: Seq<RenderCommand>, b: Seq<RenderCommand>, c: RenderCommand)
    ensures
        occurrences(a + b, c) == occurrences(a, c) + occurrences(b, c),
    decreases b.len(),
{
    if b.len() > 0 {
        lemma_occurrences_append(a, b.drop_last(), c);
        assert((a + b).drop_last() =~= a + b.drop_last());
    } else {
        assert(a + b =~= a);
    }
}

proof fn lemma_draws_frame_free(items: Seq<DrawItem>, view: ViewSource)
    ensures
        occurrences(spec_draws(items, view), RenderCommand::BeginFrame) == 0,
        occurrences(spec_draws(items, view), RenderCommand::EndFrame) == 0,
    decreases items.len(),
{
    if items.len() > 0 {
        let d = spec_draw(items.last(), view);
        lemma_draws_frame_free(items.drop_last(), view);
        lemma_occurrences_append(spec_draws(items.drop_last(), view), d, RenderCommand::BeginFrame);
        lemma_occurrences_append(spec_draws(items.drop_last(), view), d, RenderCommand::EndFrame);
        reveal_with_fuel(occurrences, 4);
    }
}

/// Every graphics tick, with or without a camera, begins exactly one frame and ends
/// exactly one, and the end is its last command.
pub proof fn tick_frames_balanced(samples: MsaaMode, has_camera: bool, items: Seq<DrawItem>)
    ensures
        occurrences(spec_tick_commands(samples, has_camera, items), RenderCommand::BeginFrame) == 1,
        occurrences(spec_tick_commands(samples, has_camera, items), RenderCommand::EndFrame) == 1,
        spec_tick_commands(samples, has_camera, items).last() == RenderCommand::EndFrame,
{
    let view = spec_view_source(has_camera);
    let head = seq![
        RenderCommand::BeginFrame,
        RenderCommand::BeginPass(spec_pass_descriptor(samples, true)),
        RenderCommand::SetPipeline(PipelineKind::Lambert),
    ];
    let tail = seq![
        RenderCommand::EndPass,
        RenderCommand::BeginPass(spec_overlay_pass()),
        RenderCommand::EndPass,
        RenderCommand::EndFrame,
    ];
    let draws = spec_draws(items, view);
    lemma_draws_frame_free(items, view);
    lemma_occurrences_append(head, draws, RenderCommand::BeginFrame);
    lemma_occurrences_append(head + draws, tail, RenderCommand::BeginFrame);
    lemma_occurrences_append(head, draws, RenderCommand::EndFrame);
    lemma_occurrences_append(head + draws, tail, RenderCommand::EndFrame);
    reveal_with_fuel(occurrences, 5);
}

/// After any number of graphics ticks from an idle ledger, as many frames have been
/// submitted as were acquired: `ledgers[i + 1]` is the ledger after the tick that began
/// at `ledgers[i]`.
pub proof fn frames_submitted_after_ticks(ledgers: Seq<FrameLedger>)
    requires
        ledgers.len() >= 1,
        ledgers[0].idle(),
        forall|i: int|
            0 <= i < ledgers.len() - 1 ==> (#[trigger] ledgers[i + 1]).spec_acquired()
                == ledgers[i].spec_acquired() + 1 && ledgers[i + 1].spec_submitted()
                == ledgers[i].spec_submitted() + 1,
    ensures
        ledgers.last().idle(),
        ledgers.last().spec_acquired() == ledgers[0].spec_acquired() + ledgers.len() - 1,
    decreases ledgers.len(),
{
    if ledgers.len() > 1 {
        let prefix = ledgers.drop_last();
        assert forall|i: int| 0 <= i < prefix.len() - 1 implies (#[trigger] prefix[i + 1]).spec_acquired()
            == prefix[i].spec_acquired() + 1 && prefix[i + 1].spec_submitted()
            == prefix[i].spec_submitted() + 1 by {
            assert(prefix[i + 1] == ledgers[i + 1]);
        }
        frames_submitted_after_ticks(prefix);
        assert(ledgers[ledgers.len() - 1] == ledgers[(ledgers.len() - 2) + 1]);
    }
}

/// Two ticks recorded from the same inputs record the same commands in the same order.
pub proof fn tick_plans_deterministic(
    samples: MsaaMode,
    has_camera: bool,
    items: Seq<DrawItem>,
    first: Seq<RenderCommand>,
    second: Seq<RenderCommand>,
)
    requires
        first == spec_tick_commands(samples, has_camera, items),
        second == spec_tick_commands(samples, has_camera, items),
    ensures
        first == second,
{
}

} // verus!
