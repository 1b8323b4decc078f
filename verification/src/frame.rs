//! One frame: the acquired image and the fixed sequence of steps that draws
//! on it and presents it.

use vstd::prelude::*;
use wgpu::{SurfaceError, TextureFormat};
use winit::dpi::PhysicalSize;
use crate::gpu::srgb_variant;

verus! {

/// A colour, eight bits to the channel; 255 is full intensity.
#[derive(Clone, Copy, Debug, PartialEq, Eq)]
pub struct ClearColor {
    pub red: u8,
    pub green: u8,
    pub blue: u8,
    pub alpha: u8,
}

impl ClearColor {
    /// Red at full intensity, fully opaque.
    pub open spec fn spec_opaque_red() -> ClearColor {
        ClearColor { red: 255, green: 0, blue: 0, alpha: 255 }
    }

    /// The colour every frame is cleared to: opaque red.
    #[verifier::when_used_as_spec(spec_opaque_red)]
    pub fn opaque_red() -> (color: ClearColor)
        ensures
            color == Self::spec_opaque_red(),
    {
        ClearColor { red: 255, green: 0, blue: 0, alpha: 255 }
    }
}

/// One step of drawing a frame. The host performs the steps of a frame in
/// the order in which they are given.
#[derive(Clone, Copy, Debug, PartialEq, Eq)]
pub enum FrameStep {
    /// Make a view of the acquired image in `format`.
    CreateView { format: TextureFormat },
    /// Record one render pass on the view that clears all of it to `color`,
    /// keeps the result, and draws nothing.
    ClearPass { color: ClearColor },
    /// Submit what was recorded to the queue.
    Submit,
    /// Tell the window that the image is about to be presented.
    PrePresentNotify,
    /// Present the acquired image, which uses it up.
    Present,
}

/// Why the surface handed out no image.
#[derive(Clone, Copy, Debug, PartialEq, Eq)]
pub enum AcquireError {
    /// No image became free in time.
    Timeout,
    /// The surface has changed under its configuration.
    Outdated,
    /// The swap chain is gone.
    Lost,
    /// There was no memory for an image.
    OutOfMemory,
    /// The surface gave no further reason.
    Other,
}

/// A frame to draw: the image it is drawn on and what to do with it.
#[derive(Debug, PartialEq, Eq)]
pub struct Frame<T> {
    /// The acquired image.
    pub target: T,
    /// The size the surface was configured for when the image was acquired.
    pub extent: PhysicalSize<u32>,
    /// The steps, in order.
    pub steps: Vec<FrameStep>,
}

/// What a `Frame` holds, its steps as a sequence.
pub struct FrameView<T> {
    pub target: T,
    pub extent: PhysicalSize<u32>,
    pub steps: Seq<FrameStep>,
}

impl<T> View for Frame<T> {
    type V = FrameView<T>;

    open spec fn view(&self) -> FrameView<T> {
        FrameView { target: self.target, extent: self.extent, steps: self.steps@ }
    }
}

/// What a rendering returned, a frame taken by its view.
pub open spec fn rendered_view<T>(rendered: Result<Frame<T>, AcquireError>) -> Result<
    FrameView<T>,
    AcquireError,
> {
    match rendered {
        Ok(frame) => Ok(frame@),
        Err(error) => Err(error),
    }
}

/// The library's name for each reason the surface gives.
pub open spec fn acquire_error_of(reason: SurfaceError) -> AcquireError {
    match reason {
        SurfaceError::Timeout => AcquireError::Timeout,
        SurfaceError::Outdated => AcquireError::Outdated,
        SurfaceError::Lost => AcquireError::Lost,
        SurfaceError::OutOfMemory => AcquireError::OutOfMemory,
        SurfaceError::Other => AcquireError::Other,
    }
}

/// The steps of every frame on a surface whose images have `format`: a view
/// in the sRGB variant of the format, one pass that clears it to
/// opaque red, the submission, the notice to the window, the present.
pub open spec fn frame_steps(format: TextureFormat) -> Seq<FrameStep> {
    seq![
        FrameStep::CreateView { format: srgb_variant(format) },
        FrameStep::ClearPass { color: ClearColor::opaque_red() },
        FrameStep::Submit,
        FrameStep::PrePresentNotify,
        FrameStep::Present,
    ]
}

/// `steps` presents the image once, as its last step, and submits before it.
pub open spec fn presents_once_at_end(steps: Seq<FrameStep>) -> bool {
    &&& steps.len() > 0
    &&& forall|i: int| 0 <= i < steps.len() ==> ((#[trigger] steps[i]) is Present <==> i == steps.len() - 1)
    &&& exists|i: int| 0 <= i < steps.len() - 1 && (#[trigger] steps[i]) is Submit
}

/// The library's name for the surface's reason for refusing an image.
pub fn acquire_error(reason: SurfaceError) -> (error: AcquireError)
    ensures
        error == acquire_error_of(reason),
{
    match reason {
        SurfaceError::Timeout => AcquireError::Timeout,
        SurfaceError::Outdated => AcquireError::Outdated,
        SurfaceError::Lost => AcquireError::Lost,
        SurfaceError::OutOfMemory => AcquireError::OutOfMemory,
        SurfaceError::Other => AcquireError::Other,
    }
}

/// Builds the frame for `target`, acquired from a surface configured for
/// `extent` with images of `format`.
pub fn plan_frame<T>(target: T, extent: PhysicalSize<u32>, format: TextureFormat) -> (frame: Frame<T>)
    ensures
        frame@ == (FrameView { target, extent, steps: frame_steps(format) }),
{
    let mut steps: Vec<FrameStep> = Vec::new();
    steps.push(FrameStep::CreateView { format: format.add_srgb_suffix() });
    steps.push(FrameStep::ClearPass { color: ClearColor::opaque_red() });
    steps.push(FrameStep::Submit);
    steps.push(FrameStep::PrePresentNotify);
    steps.push(FrameStep::Present);
    assert(steps@ =~= frame_steps(format));
    Frame { target, extent, steps }
}

/// Every frame presents its image exactly once, after everything else, and
/// not before the work on it was submitted.
pub proof fn lemma_frame_presents_once(format: TextureFormat)
    ensures
        presents_once_at_end(frame_steps(format)),
{
    let steps = frame_steps(format);
    assert(steps[2] is Submit);
}

} // verus!
