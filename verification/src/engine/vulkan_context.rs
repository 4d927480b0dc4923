use vstd::prelude::*;

verus! {

/// How asking the swapchain for the next image went.
#[derive(Debug, Clone, Copy, PartialEq, Eq, Structural)]
pub enum AcquireOutcome {
    /// An image was acquired; `suboptimal` tells whether the swapchain no longer
    /// matches the surface exactly.
    Acquired { suboptimal: bool },
    /// The swapchain no longer matches the surface.
    OutOfDate,
    /// Any other error.
    Failed,
}

/// What to do at the start of a frame.
#[derive(Debug, Clone, Copy, PartialEq, Eq, Structural)]
pub enum FrameStart {
    /// Record and submit the frame.
    Record,
    /// Recreate the swapchain for the window's current size and skip the frame.
    RecreateAndSkip,
    /// Recreate the swapchain for the window's current size and still draw the
    /// frame into the acquired image.
    RecreateAndRecord,
    /// Give up: the device cannot render.
    Fail,
}

/// How presenting a frame went.
#[derive(Debug, Clone, Copy, PartialEq, Eq, Structural)]
pub enum PresentOutcome {
    /// The frame was submitted and presented.
    Presented,
    /// The swapchain no longer matches the surface.
    OutOfDate,
    /// The surface is gone.
    SurfaceLost,
    /// Any other error.
    Failed,
}

/// What to do after presenting a frame.
#[derive(Debug, Clone, Copy, PartialEq, Eq, Structural)]
pub enum FrameEnd {
    /// Wait for the frame to finish.
    Wait,
    /// Recreate the swapchain for the window's current size.
    Recreate,
    /// Report the error and go on.
    Report,
}

/// The start of a frame: an image that fits is drawn to; a swapchain that is out
/// of date or suboptimal is recreated and the frame skipped; any other failure
/// is fatal.
pub fn frame_start(outcome: AcquireOutcome) -> (step: FrameStart)
    ensures
        step == match outcome {
            AcquireOutcome::Acquired { suboptimal } => if suboptimal {
                FrameStart::RecreateAndSkip
            } else {
                FrameStart::Record
            },
            AcquireOutcome::OutOfDate => FrameStart::RecreateAndSkip,
            AcquireOutcome::Failed => FrameStart::Fail,
        },
{
    match outcome {
        AcquireOutcome::Acquired { suboptimal } => if suboptimal {
            FrameStart::RecreateAndSkip
        } else {
            FrameStart::Record
        },
        AcquireOutcome::OutOfDate => FrameStart::RecreateAndSkip,
        AcquireOutcome::Failed => FrameStart::Fail,
    }
}

/// The start of a frame drawn in one go, from acquiring to presenting: an image
/// that fits is drawn to; a suboptimal one leads to recreating the swapchain, and
/// the frame is still drawn into it; an out-of-date swapchain is recreated and the
/// frame skipped; any other failure is fatal.
pub fn redraw_start(outcome: AcquireOutcome) -> (step: FrameStart)
    ensures
        step == match outcome {
            AcquireOutcome::Acquired { suboptimal } => if suboptimal {
                FrameStart::RecreateAndRecord
            } else {
                FrameStart::Record
            },
            AcquireOutcome::OutOfDate => FrameStart::RecreateAndSkip,
            AcquireOutcome::Failed => FrameStart::Fail,
        },
{
    match outcome {
        AcquireOutcome::Acquired { suboptimal } => if suboptimal {
            FrameStart::RecreateAndRecord
        } else {
            FrameStart::Record
        },
        AcquireOutcome::OutOfDate => FrameStart::RecreateAndSkip,
        AcquireOutcome::Failed => FrameStart::Fail,
    }
}

/// The end of a frame drawn in one go, from acquiring to presenting: a presented
/// frame is waited for; an out-of-date swapchain is recreated; any other error,
/// a lost surface included, is reported.
pub fn redraw_end(outcome: PresentOutcome) -> (step: FrameEnd)
    ensures
        step == match outcome {
            PresentOutcome::Presented => FrameEnd::Wait,
            PresentOutcome::OutOfDate => FrameEnd::Recreate,
            PresentOutcome::SurfaceLost | PresentOutcome::Failed => FrameEnd::Report,
        },
{
    match outcome {
        PresentOutcome::Presented => FrameEnd::Wait,
        PresentOutcome::OutOfDate => FrameEnd::Recreate,
        PresentOutcome::SurfaceLost => FrameEnd::Report,
        PresentOutcome::Failed => FrameEnd::Report,
    }
}

/// The kind of a physical device.
#[derive(Debug, Clone, Copy, PartialEq, Eq, Structural)]
pub enum DeviceKind {
    DiscreteGpu,
    IntegratedGpu,
    VirtualGpu,
    Cpu,
    Other,
    /// A kind this engine does not know.
    Unknown,
}

/// The preference of a device kind; lower is better. Discrete GPUs come first,
/// then integrated, virtual, CPU, other and unknown devices.
pub open spec fn spec_device_rank(kind: DeviceKind) -> u32 {
    match kind {
        DeviceKind::DiscreteGpu => 0,
        DeviceKind::IntegratedGpu => 1,
        DeviceKind::VirtualGpu => 2,
        DeviceKind::Cpu => 3,
        DeviceKind::Other => 4,
        DeviceKind::Unknown => 5,
    }
}

/// The preference of a device kind; see [`spec_device_rank`].
pub fn device_rank(kind: DeviceKind) -> (rank: u32)
    ensures
        rank == spec_device_rank(kind),
{
    match kind {
        DeviceKind::DiscreteGpu => 0,
        DeviceKind::IntegratedGpu => 1,
        DeviceKind::VirtualGpu => 2,
        DeviceKind::Cpu => 3,
        DeviceKind::Other => 4,
        DeviceKind::Unknown => 5,
    }
}

/// The suitable device to use, given the kinds of the suitable devices in the
/// order they were found: the first one of the best-ranked kind, or none if no
/// device is suitable.
pub fn pick_device(kinds: &Vec<DeviceKind>) -> (choice: Option<usize>)
    ensures
        kinds@.len() == 0 <==> choice is None,
        choice matches Some(i) ==> {
            &&& i < kinds@.len()
            &&& forall|j: int|
                0 <= j < kinds@.len() ==> spec_device_rank(kinds@[i as int]) <= spec_device_rank(
                    #[trigger] kinds@[j],
                )
            &&& forall|j: int|
                0 <= j < i ==> spec_device_rank(kinds@[i as int]) < spec_device_rank(
                    #[trigger] kinds@[j],
                )
        },
{
    if kinds.len() == 0 {
        return None;
    }
    let mut best: usize = 0;
    let mut best_rank: u32 = device_rank(kinds[0]);
    let mut j: usize = 1;
    while j < kinds.len()
        invariant
            1 <= j <= kinds@.len(),
            best < j,
            best_rank == spec_device_rank(kinds@[best as int]),
            forall|k: int| 0 <= k < j ==> best_rank <= spec_device_rank(#[trigger] kinds@[k]),
            forall|k: int| 0 <= k < best ==> best_rank < spec_device_rank(#[trigger] kinds@[k]),
        decreases kinds@.len() - j,
    {
        let rank = device_rank(kinds[j]);
        if rank < best_rank {
            best = j;
            best_rank = rank;
        }
        j += 1;
    }
    Some(best)
}

/// The end of a frame: a presented frame is waited for; an out-of-date swapchain
/// or a lost surface leads to recreating the swapchain; other errors are reported.
pub fn frame_end(outcome: PresentOutcome) -> (step: FrameEnd)
    ensures
        step == match outcome {
            PresentOutcome::Presented => FrameEnd::Wait,
            PresentOutcome::OutOfDate | PresentOutcome::SurfaceLost => FrameEnd::Recreate,
            PresentOutcome::Failed => FrameEnd::Report,
        },
{
    match outcome {
        PresentOutcome::Presented => FrameEnd::Wait,
        PresentOutcome::OutOfDate => FrameEnd::Recreate,
        PresentOutcome::SurfaceLost => FrameEnd::Recreate,
        PresentOutcome::Failed => FrameEnd::Report,
    }
}

} // verus!
