use crate::descriptor::{renderer_options, RendererOptions, Rgba8, TextureFormat};
use crate::geometry::{IVec2, UVec2};
use crate::job::{Progress, RenderJob, Request};
use crate::pipeline::Footprint;
use crate::surface::{
    unfinished_surface, PendingSurface, SurfaceHandle, SurfaceId, UnfinishedSurface,
};
use vstd::prelude::*;

verus! {

/// Draws scenes with a GPU: `C` is the connection to it and `R` the renderer.
#[derive(PartialEq, Eq)]
pub struct WgpuExecutor<C, R> {
    pub context: C,
    vello_renderer: R,
}

/// An executor that is still without its renderer, which is to be made with `options`.
#[derive(Debug, PartialEq, Eq)]
pub struct PendingExecutor<C> {
    pub context: C,
    pub options: RendererOptions,
}

/// An executor on `context` whose renderer is to be made.
pub open spec fn pending_executor<C>(context: C) -> PendingExecutor<C> {
    PendingExecutor { context, options: renderer_options() }
}

/// An executor on the connection that was made, if one was.
pub open spec fn started_executor<C>(context: Option<C>) -> Option<PendingExecutor<C>> {
    match context {
        Some(context) => Some(pending_executor(context)),
        None => None,
    }
}

impl<C> PendingExecutor<C> {
    /// What the executor becomes once its renderer was made, or could not be.
    pub closed spec fn finished<R, E>(self, renderer: Result<R, E>) -> Option<
        WgpuExecutor<C, R>,
    > {
        match renderer {
            Ok(vello_renderer) => Some(WgpuExecutor { context: self.context, vello_renderer }),
            Err(_) => None,
        }
    }

    /// The executor with the renderer that was made; without a renderer there is none.
    pub fn finish<R, E>(self, renderer: Result<R, E>) -> (r: Option<WgpuExecutor<C, R>>)
        ensures
            r == self.finished(renderer),
            r is Some <==> renderer is Ok,
            r matches Some(executor) ==> executor.connection() == self.context
                && Ok::<R, E>(executor.renderer()) == renderer,
    {
        match renderer {
            Ok(vello_renderer) => Some(WgpuExecutor { context: self.context, vello_renderer }),
            Err(_) => None,
        }
    }
}

impl<C, R> WgpuExecutor<C, R> {
    /// The connection to the GPU.
    pub closed spec fn connection(self) -> C {
        self.context
    }

    /// The renderer.
    pub closed spec fn renderer(self) -> R {
        self.vello_renderer
    }

    /// Starts an executor on the connection that was made; without one there is none.
    pub fn new(context: Option<C>) -> (r: Option<PendingExecutor<C>>)
        ensures
            r == started_executor(context),
    {
        match context {
            Some(context) => Some(WgpuExecutor::<C, R>::with_context(context)),
            None => None,
        }
    }

    /// Starts an executor on `context`.
    pub fn with_context(context: C) -> (r: PendingExecutor<C>)
        ensures
            r == pending_executor(context),
    {
        PendingExecutor { context, options: RendererOptions::vello() }
    }

    /// The connection to the GPU.
    pub fn context(&self) -> (r: &C)
        ensures
            *r == self.connection(),
    {
        &self.context
    }

    /// The renderer.
    pub fn vello_renderer(&self) -> (r: &R)
        ensures
            *r == self.renderer(),
    {
        &self.vello_renderer
    }

    /// Starts a frame that draws an artboard pixel for pixel and scales it onto a surface.
    /// `overrides` is the number of entries of the render context.
    pub fn render_vello_scene_view_mode_pixels<F, P, E>(
        &self,
        artboard_dimensions: IVec2,
        footprint: Footprint,
        overrides: usize,
        background: Rgba8,
    ) -> (r: RenderJob<F, P, E>)
        ensures
            r@ == Progress::<F, P, E>::start(
                Request::ViewModePixels { artboard_dimensions, footprint, background, overrides },
            ),
            r@.valid(),
    {
        RenderJob::new(
            Request::ViewModePixels { artboard_dimensions, footprint, background, overrides },
        )
    }

    /// Starts a frame that draws a scene onto a surface of `size`. `overrides` is the number of
    /// entries of the render context.
    pub fn render_vello_scene<F, P, E>(
        &self,
        size: UVec2,
        overrides: usize,
        background: Rgba8,
    ) -> (r: RenderJob<F, P, E>)
        ensures
            r@ == Progress::<F, P, E>::start(Request::Scene { size, background, overrides }),
            r@.valid(),
    {
        RenderJob::new(Request::Scene { size, background, overrides })
    }

    /// Starts a frame that draws a scene into a texture of its own, the one that the frame
    /// creates. `overrides` is the number of entries of the render context.
    pub fn render_vello_scene_to_texture<F, P, E>(
        &self,
        size: UVec2,
        overrides: usize,
        background: Rgba8,
    ) -> (r: RenderJob<F, P, E>)
        ensures
            r@ == Progress::<F, P, E>::start(Request::Texture { size, background, overrides }),
            r@.valid(),
    {
        RenderJob::new(Request::Texture { size, background, overrides })
    }

    /// Starts a surface for a window: hands out what the outside surface is to be made from.
    pub fn create_surface<W>(&self, window: SurfaceHandle<W>) -> (r: (W, PendingSurface))
        ensures
            r.0 == window.surface,
            r.1.window_id == window.window_id,
    {
        (window.surface, PendingSurface { window_id: window.window_id })
    }

    /// Goes on with the outside surface of a window: what is missing is a blitter.
    pub fn create_surface_inner<S>(&self, surface: S, window_id: SurfaceId) -> (r:
        UnfinishedSurface<S>)
        ensures
            r == unfinished_surface(surface, window_id),
            r.inner == surface,
            r.window_id == window_id,
            r.blitter_format == TextureFormat::Rgba8Unorm,
    {
        UnfinishedSurface::new(surface, window_id)
    }
}

/// There is an executor exactly when there is a connection and a renderer could be made, and it
/// has both.
pub proof fn law_executor_needs_context_and_renderer<C, R, E>(
    context: Option<C>,
    renderer: Result<R, E>,
)
    ensures
        ({
            let executor = match started_executor(context) {
                Some(pending) => pending.finished(renderer),
                None => None,
            };
            &&& executor is Some <==> context is Some && renderer is Ok
            &&& executor matches Some(executor) ==> Some(executor.connection()) == context
                && Ok::<R, E>(executor.renderer()) == renderer
        }),
{
}

/// How far the surface of an application's window is. `W` is the window, `X` the executor that
/// the application runs on and `S` the finished surface.
#[derive(Debug, PartialEq, Eq)]
pub enum GpuSurface<W, X, S> {
    /// The application is asked for its window.
    AskWindow,
    /// The application is asked for its executor.
    AskExecutor { window: W },
    /// The executor is to be asked for a surface for the window.
    AskSurface { window: W, executor: X },
    /// The executor was asked.
    AwaitSurface,
    /// There is a surface, or none can be had.
    Done(Option<S>),
}

impl<W, X, S> GpuSurface<W, X, S> {
    /// Where the surface of a window starts.
    pub open spec fn start(has_application: bool) -> Self {
        if has_application {
            GpuSurface::AskWindow
        } else {
            GpuSurface::Done(None)
        }
    }

    /// What follows the application's answer to the question for its window.
    pub open spec fn after_window(self, window: Option<W>) -> Self {
        match (self, window) {
            (GpuSurface::AskWindow, Some(window)) => GpuSurface::AskExecutor { window },
            (GpuSurface::AskWindow, None) => GpuSurface::Done(None),
            _ => self,
        }
    }

    /// What follows the application's answer to the question for its executor.
    pub open spec fn after_executor(self, executor: Option<X>) -> Self {
        match (self, executor) {
            (GpuSurface::AskExecutor { window }, Some(executor)) => {
                GpuSurface::AskSurface { window, executor }
            },
            (GpuSurface::AskExecutor { .. }, None) => GpuSurface::Done(None),
            _ => self,
        }
    }

    /// What the executor is to be asked for, and whom to ask.
    pub open spec fn question(self) -> Option<(W, X)> {
        match self {
            GpuSurface::AskSurface { window, executor } => Some((window, executor)),
            _ => None,
        }
    }

    /// What follows once the executor was asked.
    pub open spec fn after_question(self) -> Self {
        match self {
            GpuSurface::AskSurface { .. } => GpuSurface::AwaitSurface,
            _ => self,
        }
    }

    /// What follows the executor's answer to the question for a surface.
    pub open spec fn after_surface<E>(self, surface: Result<S, E>) -> Self {
        match (self, surface) {
            (GpuSurface::AwaitSurface, Ok(surface)) => GpuSurface::Done(Some(surface)),
            (GpuSurface::AwaitSurface, Err(_)) => GpuSurface::Done(None),
            _ => self,
        }
    }

    /// Goes on with the application's window. Without one there is no surface.
    pub fn with_window(self, window: Option<W>) -> (r: Self)
        ensures
            r == self.after_window(window),
    {
        match (self, window) {
            (GpuSurface::AskWindow, Some(window)) => GpuSurface::AskExecutor { window },
            (GpuSurface::AskWindow, None) => GpuSurface::Done(None),
            (other, _) => other,
        }
    }

    /// Goes on with the application's executor. Without one there is no surface.
    pub fn with_executor(self, executor: Option<X>) -> (r: Self)
        ensures
            r == self.after_executor(executor),
    {
        match (self, executor) {
            (GpuSurface::AskExecutor { window }, Some(executor)) => {
                GpuSurface::AskSurface { window, executor }
            },
            (GpuSurface::AskExecutor { .. }, None) => GpuSurface::Done(None),
            (other, _) => other,
        }
    }

    /// Hands out the window and the executor that is to be asked for a surface for it, once it
    /// is time to ask.
    pub fn ask_surface(self) -> (r: (Self, Option<(W, X)>))
        ensures
            r.0 == self.after_question(),
            r.1 == self.question(),
    {
        match self {
            GpuSurface::AskSurface { window, executor } => (
                GpuSurface::AwaitSurface,
                Some((window, executor)),
            ),
            other => (other, None),
        }
    }

    /// Ends with the surface that the executor made for the window. Where it failed there is
    /// none. An answer to a question that was not asked changes nothing.
    pub fn with_surface<E>(self, surface: Result<S, E>) -> (r: Self)
        ensures
            r == self.after_surface(surface),
    {
        match (self, surface) {
            (GpuSurface::AwaitSurface, Ok(surface)) => GpuSurface::Done(Some(surface)),
            (GpuSurface::AwaitSurface, Err(_)) => GpuSurface::Done(None),
            (other, _) => other,
        }
    }
}

/// Starts the surface of an application's window. Without an application there is none.
pub fn create_gpu_surface<W, X, S>(has_application: bool) -> (r: GpuSurface<W, X, S>)
    ensures
        r == GpuSurface::<W, X, S>::start(has_application),
{
    if has_application {
        GpuSurface::AskWindow
    } else {
        GpuSurface::Done(None)
    }
}

/// There is a surface exactly when there is an application, it has a window and an executor,
/// and the executor makes a surface, and then it is that one. The executor is asked for a
/// surface of the window.
pub proof fn law_gpu_surface_needs_every_part<W, X, S, E>(
    has_application: bool,
    window: Option<W>,
    executor: Option<X>,
    surface: Result<S, E>,
)
    ensures
        ({
            let asked = GpuSurface::<W, X, S>::start(has_application).after_window(
                window,
            ).after_executor(executor);
            let ended = asked.after_question().after_surface(surface);
            &&& asked.question() == match (window, executor) {
                (Some(window), Some(executor)) if has_application => Some((window, executor)),
                _ => None,
            }
            &&& ended == GpuSurface::<W, X, S>::Done(
                match surface {
                    Ok(surface) if has_application && window is Some && executor is Some => {
                        Some(surface)
                    },
                    _ => None,
                },
            )
        }),
{
}

} // verus!
