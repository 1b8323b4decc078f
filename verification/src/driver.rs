//! The application driver: what the host's lifecycle events do to the
//! application, and what the host has to do in answer to each.
//!
//! The host reports the realization of the window with `resumed`, every
//! event of the window with `window_event`, and the surface's answer to an
//! `Action::AcquireFrame` with `frame_acquired`. It performs the actions it
//! gets back, in their order, before it reports anything else.

use vstd::prelude::*;
use wgpu::{SurfaceError, TextureFormat};
use winit::dpi::PhysicalSize;
use crate::frame::{AcquireError, Frame, FrameView, rendered_view};
use crate::state::{State, StateView};
use crate::surface::{configuration_for, drawable, is_drawable, SurfaceConfig};

verus! {

/// Where the application stands in its life.
#[derive(Clone, Copy, Debug, PartialEq, Eq)]
pub enum Phase {
    /// The window has not been realized; there is no graphics context.
    Uninitialized,
    /// The window and its graphics context exist.
    Ready,
    /// The close of the window was requested; nothing more is done.
    Terminated,
}

/// An event of the window, as far as the application tells them apart.
#[derive(Clone, Copy, Debug, PartialEq, Eq)]
pub enum Event {
    /// The user asked for the window to be closed.
    CloseRequested,
    /// The window is to be drawn anew.
    RedrawRequested,
    /// The window has taken a new size.
    Resized(PhysicalSize<u32>),
    /// Any other event.
    Other,
}

/// Something the host has to do.
#[derive(Clone, Copy, Debug, PartialEq, Eq)]
pub enum Action {
    /// Apply the configuration to the surface.
    Configure(SurfaceConfig),
    /// Ask the surface for its next image and report the answer with
    /// `frame_acquired`.
    AcquireFrame,
    /// Ask the window for another redraw.
    RequestRedraw,
    /// Make known that the window has taken the size.
    AnnounceResize(PhysicalSize<u32>),
    /// Make known that the close of the window was requested.
    AnnounceClose,
    /// Leave the event loop.
    Exit,
}

/// A report that the application cannot act on.
#[derive(Clone, Copy, Debug, PartialEq, Eq)]
pub enum DriverError {
    /// An event of the window, or an answer of the surface, came before the
    /// window was realized.
    NotRealized,
    /// The realized window has no area.
    ZeroSizedWindow,
    /// The surface of the realized window reports no format.
    NoSurfaceFormat,
    /// An answer of the surface came though no image had been asked for.
    FrameNotExpected,
}

/// The answer to a report of `frame_acquired`.
#[derive(Debug, PartialEq, Eq)]
pub struct FrameTurn<T> {
    /// The frame to draw and present, or why there is none.
    pub rendered: Result<Frame<T>, AcquireError>,
    /// What the host does after that, in order.
    pub follow_up: Vec<Action>,
}

/// What a `FrameTurn` holds.
pub struct FrameTurnView<T> {
    pub rendered: Result<FrameView<T>, AcquireError>,
    pub follow_up: Seq<Action>,
}

impl<T> View for FrameTurn<T> {
    type V = FrameTurnView<T>;

    open spec fn view(&self) -> FrameTurnView<T> {
        FrameTurnView { rendered: rendered_view(self.rendered), follow_up: self.follow_up@ }
    }
}

/// What `resumed` and `window_event` returned, the actions as a sequence.
pub open spec fn actions_view(out: Result<Vec<Action>, DriverError>) -> Result<
    Seq<Action>,
    DriverError,
> {
    match out {
        Ok(actions) => Ok(actions@),
        Err(error) => Err(error),
    }
}

/// What `frame_acquired` returned, the turn taken by its view.
pub open spec fn turn_view<T>(out: Result<FrameTurn<T>, DriverError>) -> Result<
    FrameTurnView<T>,
    DriverError,
> {
    match out {
        Ok(turn) => Ok(turn@),
        Err(error) => Err(error),
    }
}

/// The application: the graphics context of its window, once there is one,
/// and whether it has come to its end.
pub struct App<W> {
    state: Option<State<W>>,
    terminated: bool,
}

/// What an `App` holds.
pub struct AppView<W> {
    /// The graphics context, from the realization of the window on.
    pub context: Option<StateView<W>>,
    /// The close of the window was requested.
    pub terminated: bool,
}

impl<W> AppView<W> {
    /// Only an application with a window comes to its end, and the surface
    /// of its window is configured whenever the window has an area.
    pub open spec fn wf(self) -> bool {
        &&& self.terminated ==> self.context is Some
        &&& self.context matches Some(context) ==> (context.configured <==> drawable(
            context.size,
        ))
    }

    /// The application before its window is realized.
    pub open spec fn uninitialized() -> Self {
        AppView { context: None, terminated: false }
    }

    /// Where the application stands.
    pub open spec fn phase(self) -> Phase {
        if self.terminated {
            Phase::Terminated
        } else if self.context is Some {
            Phase::Ready
        } else {
            Phase::Uninitialized
        }
    }

    /// The answer to the realization of a window of `size` whose surface
    /// reports `formats`.
    pub open spec fn resumed_output(
        self,
        size: PhysicalSize<u32>,
        formats: Seq<TextureFormat>,
    ) -> Result<Seq<Action>, DriverError> {
        if self.terminated {
            Ok(Seq::empty())
        } else if !drawable(size) {
            Err(DriverError::ZeroSizedWindow)
        } else if formats.len() == 0 {
            Err(DriverError::NoSurfaceFormat)
        } else {
            Ok(seq![Action::Configure(configuration_for(size, formats[0])), Action::RequestRedraw])
        }
    }

    /// The application after the realization of `window`.
    pub open spec fn after_resumed(
        self,
        window: W,
        size: PhysicalSize<u32>,
        formats: Seq<TextureFormat>,
    ) -> Self {
        if !self.terminated && drawable(size) && formats.len() > 0 {
            AppView { context: Some(StateView::created(window, size, formats[0])), terminated: false }
        } else {
            self
        }
    }

    /// The answer to an event of the window.
    pub open spec fn event_output(self, event: Event) -> Result<Seq<Action>, DriverError> {
        match self.phase() {
            Phase::Uninitialized => Err(DriverError::NotRealized),
            Phase::Terminated => Ok(Seq::empty()),
            Phase::Ready => {
                let context = self.context->0;
                match event {
                    Event::CloseRequested => Ok(seq![Action::AnnounceClose, Action::Exit]),
                    Event::RedrawRequested => if context.configured {
                        Ok(seq![Action::AcquireFrame])
                    } else {
                        Ok(seq![Action::RequestRedraw])
                    },
                    Event::Resized(new_size) => match context.resize_output(new_size) {
                        Some(config) => Ok(
                            seq![Action::Configure(config), Action::AnnounceResize(new_size)],
                        ),
                        None => Ok(seq![Action::AnnounceResize(new_size)]),
                    },
                    Event::Other => Ok(Seq::empty()),
                }
            },
        }
    }

    /// The application after an event of the window.
    pub open spec fn after_event(self, event: Event) -> Self {
        match self.phase() {
            Phase::Ready => match event {
                Event::CloseRequested => AppView { terminated: true, ..self },
                Event::Resized(new_size) => AppView {
                    context: Some(self.context->0.after_resize(new_size)),
                    ..self
                },
                _ => self,
            },
            _ => self,
        }
    }

    /// An image has been asked for: the application is ready and its surface
    /// configured.
    pub open spec fn expects_frame(self) -> bool {
        self.phase() == Phase::Ready && self.context->0.configured
    }

    /// The answer to what the surface said when asked for its next image.
    pub open spec fn frame_output<T>(self, acquired: Result<T, SurfaceError>) -> Result<
        FrameTurnView<T>,
        DriverError,
    > {
        if self.phase() == Phase::Uninitialized {
            Err(DriverError::NotRealized)
        } else if !self.expects_frame() {
            Err(DriverError::FrameNotExpected)
        } else {
            let context = self.context->0;
            Ok(
                FrameTurnView {
                    rendered: context.render_output(acquired),
                    follow_up: if acquired is Ok {
                        seq![Action::RequestRedraw]
                    } else {
                        seq![Action::Configure(context.configuration()), Action::RequestRedraw]
                    },
                },
            )
        }
    }
}

impl<W> View for App<W> {
    type V = AppView<W>;

    closed spec fn view(&self) -> AppView<W> {
        AppView {
            context: match self.state {
                Some(state) => Some(state@),
                None => None,
            },
            terminated: self.terminated,
        }
    }
}

impl<W> Default for App<W> {
    /// The application before its window is realized.
    fn default() -> (app: Self)
        ensures
            app@ == AppView::<W>::uninitialized(),
    {
        App { state: None, terminated: false }
    }
}

impl<W> App<W> {
    #[verifier::type_invariant]
    spec fn inv(self) -> bool {
        self@.wf()
    }

    /// Where the application stands.
    pub fn phase(&self) -> (phase: Phase)
        ensures
            phase == self@.phase(),
            self@.wf(),
    {
        proof {
            use_type_invariant(self);
        }
        if self.terminated {
            Phase::Terminated
        } else if self.state.is_some() {
            Phase::Ready
        } else {
            Phase::Uninitialized
        }
    }

    /// The graphics context, once the window is realized.
    pub fn state(&self) -> (state: Option<&State<W>>)
        ensures
            state matches Some(context) ==> self@.context == Some(context@),
            state is None <==> self@.context is None,
    {
        self.state.as_ref()
    }

    /// The window has been realized: `window` exists, has the size `size`,
    /// and its surface reports the formats `formats`.
    ///
    /// Creates the graphics context of the window, in place of an earlier
    /// one if there was one, and has the host configure the surface and ask
    /// for the first redraw. A window without an area and a surface without
    /// a format are refused, and the application stays as it was. After its
    /// end the application does nothing.
    pub fn resumed(&mut self, window: W, size: PhysicalSize<u32>, formats: &[TextureFormat]) -> (out:
        Result<Vec<Action>, DriverError>)
        ensures
            actions_view(out) == old(self)@.resumed_output(size, formats@),
            final(self)@ == old(self)@.after_resumed(window, size, formats@),
            final(self)@.wf(),
    {
        proof {
            use_type_invariant(&*self);
        }
        if self.terminated {
            return Ok(Vec::new());
        }
        if !is_drawable(size) {
            return Err(DriverError::ZeroSizedWindow);
        }
        if formats.len() == 0 {
            return Err(DriverError::NoSurfaceFormat);
        }
        let (state, config) = State::new(window, size, formats);
        self.state = Some(state);
        let mut actions: Vec<Action> = Vec::new();
        actions.push(Action::Configure(config));
        actions.push(Action::RequestRedraw);
        assert(actions@ =~= seq![Action::Configure(config), Action::RequestRedraw]);
        Ok(actions)
    }

    /// An event of the window has arrived.
    ///
    /// Before the window is realized there is no graphics context to bring
    /// the event to, and the event is refused. After its end the application
    /// does nothing. In between: a request to close ends the application; a
    /// request to redraw has the host ask the surface for an image, or, while
    /// the window has no area, only for the next redraw; a resize is taken
    /// over by the graphics context; any other event is passed over.
    pub fn window_event(&mut self, event: Event) -> (out: Result<Vec<Action>, DriverError>)
        ensures
            actions_view(out) == old(self)@.event_output(event),
            final(self)@ == old(self)@.after_event(event),
            final(self)@.wf(),
    {
        proof {
            use_type_invariant(&*self);
        }
        if self.terminated {
            return Ok(Vec::new());
        }
        let mut actions: Vec<Action> = Vec::new();
        let mut held: Option<State<W>> = None;
        core::mem::swap(&mut self.state, &mut held);
        match held {
            None => {
                return Err(DriverError::NotRealized);
            },
            Some(mut state) => {
                match event {
                    Event::CloseRequested => {
                        actions.push(Action::AnnounceClose);
                        actions.push(Action::Exit);
                    },
                    Event::RedrawRequested => {
                        if state.is_configured() {
                            actions.push(Action::AcquireFrame);
                        } else {
                            actions.push(Action::RequestRedraw);
                        }
                    },
                    Event::Resized(new_size) => {
                        match state.resize(new_size) {
                            Some(config) => {
                                actions.push(Action::Configure(config));
                            },
                            None => {},
                        }
                        actions.push(Action::AnnounceResize(new_size));
                    },
                    Event::Other => {},
                }
                self.state = Some(state);
            },
        }
        match event {
            Event::CloseRequested => {
                self.terminated = true;
            },
            _ => {},
        }
        assert(actions@ =~= old(self)@.event_output(event)->Ok_0);
        Ok(actions)
    }

    /// The surface has answered the request for its next image.
    ///
    /// On an image, returns the frame to draw and present, and has the host
    /// ask for the next redraw. On a refusal, returns the reason, and has the
    /// host configure the surface again and ask for the next redraw, with
    /// which the frame is tried anew. An answer that was not asked for is
    /// refused, and the image, if it is one, dropped.
    pub fn frame_acquired<T>(&mut self, acquired: Result<T, SurfaceError>) -> (out: Result<
        FrameTurn<T>,
        DriverError,
    >)
        ensures
            turn_view(out) == old(self)@.frame_output(acquired),
            final(self)@ == old(self)@,
            final(self)@.wf(),
    {
        proof {
            use_type_invariant(&*self);
        }
        if self.terminated {
            return Err(DriverError::FrameNotExpected);
        }
        let mut held: Option<State<W>> = None;
        core::mem::swap(&mut self.state, &mut held);
        match held {
            None => Err(DriverError::NotRealized),
            Some(mut state) => {
                if !state.is_configured() {
                    self.state = Some(state);
                    return Err(DriverError::FrameNotExpected);
                }
                let rendered = state.render(acquired);
                let mut follow_up: Vec<Action> = Vec::new();
                if rendered.is_err() {
                    let config = state.configure_surface();
                    follow_up.push(Action::Configure(config));
                }
                follow_up.push(Action::RequestRedraw);
                assert(follow_up@ =~= old(self)@.frame_output(acquired)->Ok_0.follow_up);
                self.state = Some(state);
                Ok(FrameTurn { rendered, follow_up })
            },
        }
    }
}

/// An action that has the host touch the surface.
pub open spec fn uses_surface(action: Action) -> bool {
    action is Configure || action is AcquireFrame
}

/// Before the window is realized nothing reaches a graphics context: every
/// event of the window and every answer of the surface is refused, and the
/// application stays as it was.
pub proof fn lemma_nothing_before_realization<W, T>(
    app: AppView<W>,
    event: Event,
    acquired: Result<T, SurfaceError>,
)
    requires
        app.phase() == Phase::Uninitialized,
    ensures
        app.event_output(event) == Err::<Seq<Action>, DriverError>(DriverError::NotRealized),
        app.after_event(event) == app,
        app.frame_output(acquired) == Err::<FrameTurnView<T>, DriverError>(
            DriverError::NotRealized,
        ),
{
}

/// Whatever has the host touch the surface, or draw a frame, was decided
/// with a graphics context at hand: the application was ready, or, for the
/// first configuration, its window has just been realized.
pub proof fn lemma_surface_needs_context<W, T>(
    app: AppView<W>,
    event: Event,
    acquired: Result<T, SurfaceError>,
    window: W,
    size: PhysicalSize<u32>,
    formats: Seq<TextureFormat>,
)
    ensures
        app.event_output(event) matches Ok(actions) ==> (forall|i: int|
            0 <= i < actions.len() && uses_surface(#[trigger] actions[i]) ==> app.phase()
                == Phase::Ready),
        app.frame_output(acquired) is Ok ==> app.phase() == Phase::Ready,
        app.resumed_output(size, formats) matches Ok(actions) ==> (forall|i: int|
            0 <= i < actions.len() && uses_surface(#[trigger] actions[i]) ==> app.after_resumed(
                window,
                size,
                formats,
            ).phase() == Phase::Ready),
{
}

/// The application moves forward only: from uninitialized to ready by the
/// realization of its window and by nothing else, from ready to terminated
/// by a request to close and by nothing else, and from terminated nowhere.
pub proof fn lemma_phases_in_order<W>(
    app: AppView<W>,
    event: Event,
    window: W,
    size: PhysicalSize<u32>,
    formats: Seq<TextureFormat>,
)
    requires
        app.wf(),
    ensures
        ({
            let next = app.after_event(event);
            &&& next.wf()
            &&& next.phase() != app.phase() ==> app.phase() == Phase::Ready && event
                == Event::CloseRequested && next.phase() == Phase::Terminated
            &&& app.phase() == Phase::Ready && event == Event::CloseRequested ==> next.phase()
                == Phase::Terminated
        }),
        ({
            let next = app.after_resumed(window, size, formats);
            &&& next.wf()
            &&& next.phase() != app.phase() ==> app.phase() == Phase::Uninitialized
                && next.phase() == Phase::Ready
            &&& app.phase() == Phase::Terminated ==> next == app
        }),
{
}

/// After its end the application does nothing: it stays as it is and hands
/// the host no action, whatever is reported to it.
pub proof fn lemma_terminated_is_absorbing<W, T>(
    app: AppView<W>,
    event: Event,
    acquired: Result<T, SurfaceError>,
    window: W,
    size: PhysicalSize<u32>,
    formats: Seq<TextureFormat>,
)
    requires
        app.phase() == Phase::Terminated,
    ensures
        app.after_event(event) == app,
        app.event_output(event) == Ok::<Seq<Action>, DriverError>(Seq::empty()),
        app.after_resumed(window, size, formats) == app,
        app.resumed_output(size, formats) == Ok::<Seq<Action>, DriverError>(Seq::empty()),
        app.frame_output(acquired) is Err,
{
}

/// While the application is ready the redraws do not stop: a request to
/// redraw is answered by asking for an image or for the next redraw, and
/// the answer to the image ends by asking for the next redraw.
pub proof fn lemma_redraw_continues<W, T>(app: AppView<W>, acquired: Result<T, SurfaceError>)
    requires
        app.wf(),
        app.phase() == Phase::Ready,
    ensures
        app.event_output(Event::RedrawRequested) == Ok::<Seq<Action>, DriverError>(
            if app.expects_frame() {
                seq![Action::AcquireFrame]
            } else {
                seq![Action::RequestRedraw]
            },
        ),
        app.expects_frame() <==> drawable(app.context->0.size),
        app.expects_frame() ==> (app.frame_output(acquired) matches Ok(turn) && turn.follow_up.last()
            == Action::RequestRedraw),
{
}

/// A frame drawn after a resize has the new size: once the window has taken
/// a size with an area, the next image handed out gives a frame of that
/// size, whatever size the window had before.
pub proof fn lemma_frame_follows_resize<W, T>(
    app: AppView<W>,
    new_size: PhysicalSize<u32>,
    target: T,
)
    requires
        app.wf(),
        app.phase() == Phase::Ready,
        drawable(new_size),
    ensures
        ({
            let resized = app.after_event(Event::Resized(new_size));
            &&& resized.expects_frame()
            &&& resized.frame_output(Ok::<T, SurfaceError>(target)) matches Ok(turn)
                && turn.rendered matches Ok(frame) && frame.extent == new_size && frame.target
                == target
        }),
{
}

} // verus!
