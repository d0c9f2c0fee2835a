use vstd::prelude::*;
use crate::config::MsaaMode;

verus! {

/// A colour image a render pass can write to.
#[derive(Clone, Copy, Debug, PartialEq, Eq, Structural)]
pub enum ColorImage {
    /// The presentation image acquired for this frame.
    Acquired,
    /// The off-screen multi-sample colour target.
    MultiSample,
}

/// What happens to an attachment's contents when a pass begins.
#[derive(Clone, Copy, Debug, PartialEq, Eq, Structural)]
pub enum LoadOp {
    /// Cleared to the fixed background colour (white) or, for depth, to the far plane.
    Clear,
    /// Kept as the previous pass left it.
    Load,
}

/// The depth attachment of a pass: cleared to the far plane, not stored, stencil untouched.
#[derive(Clone, Copy, Debug, PartialEq, Eq, Structural)]
pub struct DepthAttachment {
    pub load: LoadOp,
    pub store: bool,
    pub touches_stencil: bool,
}

/// The attachments a render pass begins with.
#[derive(Clone, Copy, Debug, PartialEq, Eq, Structural)]
pub struct PassDescriptor {
    pub color: ColorImage,
    pub resolve_target: Option<ColorImage>,
    pub color_load: LoadOp,
    pub color_store: bool,
    pub depth: Option<DepthAttachment>,
}

pub open spec fn spec_pass_descriptor(samples: MsaaMode, use_depth_stencil: bool) -> PassDescriptor {
    PassDescriptor {
        color: if samples == MsaaMode::Off {
            ColorImage::Acquired
        } else {
            ColorImage::MultiSample
        },
        resolve_target: if samples == MsaaMode::Off {
            None
        } else {
            Some(ColorImage::Acquired)
        },
        color_load: LoadOp::Clear,
        color_store: true,
        depth: if use_depth_stencil {
            Some(DepthAttachment { load: LoadOp::Clear, store: false, touches_stencil: false })
        } else {
            None
        },
    }
}

/// The attachments of a scene pass: without multi-sampling it writes the acquired image
/// directly; with it, it writes the multi-sample target and resolves into the acquired
/// image. Colour is cleared every pass; the depth target is attached and cleared only
/// when asked for.
pub fn pass_descriptor(samples: MsaaMode, use_depth_stencil: bool) -> (r: PassDescriptor)
    ensures
        r == spec_pass_descriptor(samples, use_depth_stencil),
{
    let off = samples == MsaaMode::Off;
    PassDescriptor {
        color: if off {
            ColorImage::Acquired
        } else {
            ColorImage::MultiSample
        },
        resolve_target: if off {
            None
        } else {
            Some(ColorImage::Acquired)
        },
        color_load: LoadOp::Clear,
        color_store: true,
        depth: if use_depth_stencil {
            Some(DepthAttachment { load: LoadOp::Clear, store: false, touches_stencil: false })
        } else {
            None
        },
    }
}

/// The overlay pass drawn on top of the scene: it writes the acquired image, keeping
/// what the scene pass left, with no depth attachment.
pub open spec fn spec_overlay_pass() -> PassDescriptor {
    PassDescriptor {
        color: ColorImage::Acquired,
        resolve_target: None,
        color_load: LoadOp::Load,
        color_store: true,
        depth: None,
    }
}

pub fn overlay_pass() -> (r: PassDescriptor)
    ensures
        r == spec_overlay_pass(),
{
    PassDescriptor {
        color: ColorImage::Acquired,
        resolve_target: None,
        color_load: LoadOp::Load,
        color_store: true,
        depth: None,
    }
}

/// Counts of acquired and submitted frames. At most one frame is in flight: a frame is
/// begun only when every earlier one has been submitted.
pub struct FrameLedger {
    acquired: u64,
    submitted: u64,
}

/// One acquired presentation image and its command recording. It is consumed by `end`.
pub struct Frame {
    index: u64,
    samples: MsaaMode,
    passes: Vec<PassDescriptor>,
}

impl FrameLedger {
    pub closed spec fn spec_acquired(&self) -> nat {
        self.acquired as nat
    }

    pub closed spec fn spec_submitted(&self) -> nat {
        self.submitted as nat
    }

    pub open spec fn wf(&self) -> bool {
        self.spec_submitted() <= self.spec_acquired() <= self.spec_submitted() + 1
    }

    /// No frame is in flight.
    pub open spec fn idle(&self) -> bool {
        self.spec_acquired() == self.spec_submitted()
    }

    pub fn new() -> (r: Self)
        ensures
            r.spec_acquired() == 0,
            r.spec_submitted() == 0,
            r.wf(),
    {
        FrameLedger { acquired: 0, submitted: 0 }
    }

    pub fn acquired(&self) -> (r: u64)
        ensures
            r == self.spec_acquired(),
    {
        self.acquired
    }

    pub fn submitted(&self) -> (r: u64)
        ensures
            r == self.spec_submitted(),
    {
        self.submitted
    }

    /// Acquires the next frame.
    pub fn begin_frame(&mut self, samples: MsaaMode) -> (f: Frame)
        requires
            old(self).idle(),
            old(self).spec_acquired() < u64::MAX,
        ensures
            final(self).spec_acquired() == old(self).spec_acquired() + 1,
            final(self).spec_submitted() == old(self).spec_submitted(),
            final(self).wf(),
            f.spec_index() == old(self).spec_acquired(),
            f.spec_samples() == samples,
            f.spec_passes() == Seq::<PassDescriptor>::empty(),
    {
        let f = Frame { index: self.acquired, samples, passes: Vec::new() };
        self.acquired = self.acquired + 1;
        f
    }
}

impl Frame {
    pub closed spec fn spec_index(&self) -> nat {
        self.index as nat
    }

    pub closed spec fn spec_samples(&self) -> MsaaMode {
        self.samples
    }

    pub closed spec fn spec_passes(&self) -> Seq<PassDescriptor> {
        self.passes@
    }

    /// Position of this frame in acquisition order, from zero.
    pub fn index(&self) -> (r: u64)
        ensures
            r == self.spec_index(),
    {
        self.index
    }

    pub fn passes(&self) -> (r: &Vec<PassDescriptor>)
        ensures
            r@ == self.spec_passes(),
    {
        &self.passes
    }

    /// Begins a render pass on this frame's recording.
    pub fn create_pass(&mut self, use_depth_stencil: bool) -> (r: PassDescriptor)
        ensures
            r == spec_pass_descriptor(old(self).spec_samples(), use_depth_stencil),
            final(self).spec_passes() == old(self).spec_passes().push(r),
            final(self).spec_index() == old(self).spec_index(),
            final(self).spec_samples() == old(self).spec_samples(),
    {
        let d = pass_descriptor(self.samples, use_depth_stencil);
        self.passes.push(d);
        d
    }

    /// Begins the overlay pass on this frame's recording.
    pub fn create_overlay_pass(&mut self) -> (r: PassDescriptor)
        ensures
            r == spec_overlay_pass(),
            final(self).spec_passes() == old(self).spec_passes().push(r),
            final(self).spec_index() == old(self).spec_index(),
            final(self).spec_samples() == old(self).spec_samples(),
    {
        let d = overlay_pass();
        self.passes.push(d);
        d
    }

    /// Submits the frame's commands and presents it; the frame is consumed.
    pub fn end(self, ledger: &mut FrameLedger) -> (r: Vec<PassDescriptor>)
        requires
            old(ledger).wf(),
            !old(ledger).idle(),
            self.spec_index() == old(ledger).spec_submitted(),
        ensures
            final(ledger).spec_submitted() == old(ledger).spec_submitted() + 1,
            final(ledger).spec_acquired() == old(ledger).spec_acquired(),
            final(ledger).idle(),
            r@ == self.spec_passes(),
    {
        ledger.submitted = ledger.submitted + 1;
        self.passes
    }
}

} // verus!
