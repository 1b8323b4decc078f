//! The graphics context of one window: its size, the format of its surface,
//! and whether the surface is configured for that size.

use vstd::prelude::*;
use wgpu::{SurfaceError, TextureFormat};
use winit::dpi::PhysicalSize;
use crate::frame::{
    acquire_error, acquire_error_of, frame_steps, lemma_frame_presents_once, plan_frame,
    presents_once_at_end, rendered_view, AcquireError, Frame, FrameView,
};
use crate::surface::{configuration_for, drawable, is_drawable, surface_configuration, SurfaceConfig};

verus! {

/// The graphics context of the window `window`.
///
/// The host holds the device, the queue and the surface; the context holds
/// what decides how they are used. A frame may be rendered only while the
/// surface is configured for the context's current size.
pub struct State<W> {
    window: W,
    size: PhysicalSize<u32>,
    surface_format: TextureFormat,
    configured: bool,
}

/// What a `State` holds.
pub struct StateView<W> {
    /// The window the context belongs to.
    pub window: W,
    /// The current size of the window, in pixels.
    pub size: PhysicalSize<u32>,
    /// The format of the surface's images, chosen once.
    pub surface_format: TextureFormat,
    /// The surface is configured for `size` and `surface_format`.
    pub configured: bool,
}

impl<W> StateView<W> {
    /// A surface is never taken to be configured for a size with no area.
    pub open spec fn wf(self) -> bool {
        self.configured ==> drawable(self.size)
    }

    /// The context of a newly realized window, its surface configured.
    pub open spec fn created(window: W, size: PhysicalSize<u32>, format: TextureFormat) -> Self {
        StateView { window, size, surface_format: format, configured: true }
    }

    /// The configuration that goes with the current size and format.
    pub open spec fn configuration(self) -> SurfaceConfig {
        configuration_for(self.size, self.surface_format)
    }

    /// The context once its configuration has been applied.
    pub open spec fn after_configure(self) -> Self {
        StateView { configured: true, ..self }
    }

    /// The context once the window has taken the size `new_size`.
    pub open spec fn after_resize(self, new_size: PhysicalSize<u32>) -> Self {
        StateView { size: new_size, configured: drawable(new_size), ..self }
    }

    /// What the host has to apply when the window takes the size `new_size`:
    /// the new configuration, or nothing where the size has no area.
    pub open spec fn resize_output(self, new_size: PhysicalSize<u32>) -> Option<SurfaceConfig> {
        if drawable(new_size) {
            Some(configuration_for(new_size, self.surface_format))
        } else {
            None
        }
    }

    /// The context once the surface has answered the request for an image:
    /// after a refusal the surface must be configured anew.
    pub open spec fn after_render<T>(self, acquired: Result<T, SurfaceError>) -> Self {
        StateView { configured: acquired is Ok, ..self }
    }

    /// The frame to draw on the image the surface handed out, or the reason
    /// for which it handed out none.
    pub open spec fn render_output<T>(self, acquired: Result<T, SurfaceError>) -> Result<
        FrameView<T>,
        AcquireError,
    > {
        match acquired {
            Ok(target) => Ok(
                FrameView { target, extent: self.size, steps: frame_steps(self.surface_format) },
            ),
            Err(reason) => Err(acquire_error_of(reason)),
        }
    }
}

impl<W> View for State<W> {
    type V = StateView<W>;

    closed spec fn view(&self) -> StateView<W> {
        StateView {
            window: self.window,
            size: self.size,
            surface_format: self.surface_format,
            configured: self.configured,
        }
    }
}

impl<W> State<W> {
    #[verifier::type_invariant]
    spec fn inv(self) -> bool {
        self.configured ==> drawable(self.size)
    }

    /// The context for `window`, which has the size `size` and whose surface
    /// reports the formats `formats`, with the configuration to apply to the
    /// surface. The first format reported is the one used from then on.
    pub fn new(window: W, size: PhysicalSize<u32>, formats: &[TextureFormat]) -> (out: (
        State<W>,
        SurfaceConfig,
    ))
        requires
            drawable(size),
            formats@.len() > 0,
        ensures
            out.0@ == StateView::created(window, size, formats@[0]),
            out.1 == out.0@.configuration(),
    {
        let surface_format = formats[0];
        let state = State { window, size, surface_format, configured: true };
        let config = surface_configuration(size, surface_format);
        (state, config)
    }

    /// The window the context belongs to.
    pub fn get_window(&self) -> (window: &W)
        ensures
            *window == self@.window,
    {
        &self.window
    }

    /// The current size of the window.
    pub fn size(&self) -> (size: PhysicalSize<u32>)
        ensures
            size == self@.size,
    {
        self.size
    }

    /// The format of the surface's images.
    pub fn surface_format(&self) -> (format: TextureFormat)
        ensures
            format == self@.surface_format,
    {
        self.surface_format
    }

    /// Whether the surface is configured for the current size, so that a
    /// frame may be rendered.
    pub fn is_configured(&self) -> (configured: bool)
        ensures
            configured == self@.configured,
            self@.wf(),
    {
        proof {
            use_type_invariant(self);
        }
        self.configured
    }

    /// Configures the surface for the current size: returns the configuration,
    /// which the host applies before anything else is done with the surface.
    pub fn configure_surface(&mut self) -> (config: SurfaceConfig)
        requires
            drawable(old(self)@.size),
        ensures
            final(self)@ == old(self)@.after_configure(),
            config == old(self)@.configuration(),
    {
        self.configured = true;
        surface_configuration(self.size, self.surface_format)
    }

    /// Takes the new size of the window and configures the surface for it.
    ///
    /// Where `new_size` has no area, as for a minimized window, there is
    /// nothing to configure: the size is taken, nothing is returned, and no
    /// frame may be rendered until the window has an area again.
    pub fn resize(&mut self, new_size: PhysicalSize<u32>) -> (config: Option<SurfaceConfig>)
        ensures
            final(self)@ == old(self)@.after_resize(new_size),
            config == old(self)@.resize_output(new_size),
    {
        if is_drawable(new_size) {
            self.size = new_size;
            Some(self.configure_surface())
        } else {
            self.configured = false;
            self.size = new_size;
            None
        }
    }

    /// Renders one frame on what the surface answered to the request for its
    /// next image.
    ///
    /// On an image, returns the frame for the host to draw and present. On a
    /// refusal, returns the reason; the surface then has to be configured
    /// again before the next frame.
    pub fn render<T>(&mut self, acquired: Result<T, SurfaceError>) -> (out: Result<
        Frame<T>,
        AcquireError,
    >)
        requires
            old(self)@.configured,
        ensures
            final(self)@ == old(self)@.after_render(acquired),
            rendered_view(out) == old(self)@.render_output(acquired),
    {
        match acquired {
            Ok(target) => Ok(plan_frame(target, self.size, self.surface_format)),
            Err(reason) => {
                self.configured = false;
                Err(acquire_error(reason))
            },
        }
    }
}

/// A context created for a window with an area renders its first frame:
/// it is configured for the window's size, and on the image the surface hands
/// out it returns a frame of that size and stays as it was.
pub proof fn lemma_first_frame_succeeds<W, T>(
    window: W,
    size: PhysicalSize<u32>,
    formats: Seq<TextureFormat>,
    target: T,
)
    requires
        drawable(size),
        formats.len() > 0,
    ensures
        ({
            let created = StateView::created(window, size, formats[0]);
            let acquired = Ok::<T, SurfaceError>(target);
            &&& created.wf()
            &&& created.configured
            &&& created.configuration() == configuration_for(size, formats[0])
            &&& created.render_output(acquired) matches Ok(frame) && frame.target == target
                && frame.extent == size
            &&& created.after_render(acquired) == created
        }),
{
}

/// After a resize no frame is rendered for another size than the new one:
/// the context holds the new size; it is configured, so that a frame may be
/// rendered, exactly when that size has an area; the configuration handed
/// out is that of the new size; and a frame rendered next has the new size.
pub proof fn lemma_no_stale_size<W, T>(
    state: StateView<W>,
    new_size: PhysicalSize<u32>,
    acquired: Result<T, SurfaceError>,
)
    ensures
        ({
            let resized = state.after_resize(new_size);
            &&& resized.wf()
            &&& resized.size == new_size
            &&& resized.configured <==> drawable(new_size)
            &&& state.resize_output(new_size) matches Some(config) ==> config.width
                == new_size.width && config.height == new_size.height && config
                == resized.configuration()
            &&& resized.render_output(acquired) matches Ok(frame) ==> frame.extent == new_size
        }),
{
}

/// Every image the surface hands out is presented exactly once: the frame
/// returned holds that image, and its steps present it once, at the end,
/// after the submission. Where the surface hands out none there is no frame.
pub proof fn lemma_acquired_image_presented_once<W, T>(
    state: StateView<W>,
    acquired: Result<T, SurfaceError>,
)
    ensures
        match acquired {
            Ok(target) => state.render_output(acquired) matches Ok(frame) && frame.target == target
                && presents_once_at_end(frame.steps),
            Err(reason) => state.render_output(acquired) == Err::<FrameView<T>, AcquireError>(
                acquire_error_of(reason),
            ),
        },
{
    lemma_frame_presents_once(state.surface_format);
}

/// Configuring twice is configuring once: the second time the context does
/// not change, the same configuration is handed out, and whatever is rendered
/// next is the same.
pub proof fn lemma_configure_idempotent<W, T>(
    state: StateView<W>,
    acquired: Result<T, SurfaceError>,
)
    ensures
        ({
            let once = state.after_configure();
            let twice = once.after_configure();
            &&& twice == once
            &&& once.configuration() == state.configuration()
            &&& twice.render_output(acquired) == once.render_output(acquired)
            &&& twice.after_render(acquired) == once.after_render(acquired)
        }),
{
}

/// A refusal is made good by configuring again: the context is then what it
/// was before the refusal, and renders the next image handed out.
pub proof fn lemma_configure_recovers<W, T>(
    state: StateView<W>,
    reason: SurfaceError,
    target: T,
)
    requires
        state.configured,
    ensures
        ({
            let refused = state.after_render(Err::<T, SurfaceError>(reason));
            let acquired = Ok::<T, SurfaceError>(target);
            &&& !refused.configured
            &&& refused.after_configure() == state
            &&& refused.after_configure().render_output(acquired) is Ok
        }),
{
}

} // verus!
