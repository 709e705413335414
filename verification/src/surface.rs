use crate::descriptor::{TextureFormat, VELLO_SURFACE_FORMAT};
use crate::geometry::UVec2;
use vstd::prelude::*;

verus! {

/// The number of a window or canvas.
#[derive(Clone, Copy, Debug, PartialEq, Eq, Structural)]
pub struct SurfaceId(pub u64);

/// Something that belongs to a window.
#[derive(Debug, PartialEq, Eq)]
pub struct SurfaceHandle<S> {
    pub window_id: SurfaceId,
    pub surface: S,
}

/// A texture that scenes are drawn into before they are shown, kept from frame to frame. `V` is
/// the type of texture views.
#[derive(Debug, PartialEq, Eq)]
pub struct TargetTexture<V> {
    view: V,
    size: UVec2,
}

impl<V> TargetTexture<V> {
    /// The view through which the texture is drawn into and read.
    pub closed spec fn spec_view(self) -> V {
        self.view
    }

    /// The size of the texture.
    pub closed spec fn spec_size(self) -> UVec2 {
        self.size
    }

    /// A texture of `size`, seen through `view`.
    pub fn new(view: V, size: UVec2) -> (r: Self)
        ensures
            r.spec_view() == view,
            r.spec_size() == size,
    {
        TargetTexture { view, size }
    }

    /// The view through which the texture is drawn into and read.
    pub fn texture_view(&self) -> (r: &V)
        ensures
            *r == self.spec_view(),
    {
        &self.view
    }

    /// The size of the texture.
    pub fn size(&self) -> (r: UVec2)
        ensures
            r == self.spec_size(),
    {
        self.size
    }
}

/// A surface that frames are shown on: `S` is the outside surface, `V` the type of texture
/// views and `B` what copies one texture into another.
#[derive(Debug, PartialEq, Eq)]
pub struct Surface<S, V, B> {
    pub inner: S,
    pub target_texture: Option<TargetTexture<V>>,
    pub blitter: B,
}

/// A surface that is being made for a window.
#[derive(Debug, PartialEq, Eq)]
pub struct PendingSurface {
    pub window_id: SurfaceId,
}

/// A surface that is still without what copies its target onto it: a blitter for textures of
/// `blitter_format`.
#[derive(Debug, PartialEq, Eq)]
pub struct UnfinishedSurface<S> {
    pub inner: S,
    pub window_id: SurfaceId,
    pub blitter_format: TextureFormat,
}

/// The format that blitters of this library write.
pub open spec fn blitter_format() -> TextureFormat {
    TextureFormat::Rgba8Unorm
}

/// A surface that needs a blitter for the format in which targets are drawn.
pub open spec fn unfinished_surface<S>(inner: S, window_id: SurfaceId) -> UnfinishedSurface<S> {
    UnfinishedSurface { inner, window_id, blitter_format: blitter_format() }
}

impl<S> UnfinishedSurface<S> {
    pub(crate) fn new(inner: S, window_id: SurfaceId) -> (r: Self)
        ensures
            r == unfinished_surface(inner, window_id),
            r.inner == inner,
            r.window_id == window_id,
            r.blitter_format == TextureFormat::Rgba8Unorm,
    {
        UnfinishedSurface { inner, window_id, blitter_format: VELLO_SURFACE_FORMAT }
    }

    /// The surface of the window, which keeps no target texture yet.
    pub fn finish<V, B>(self, blitter: B) -> (r: SurfaceHandle<Surface<S, V, B>>)
        ensures
            r.window_id == self.window_id,
            r.surface.inner == self.inner,
            r.surface.target_texture is None,
            r.surface.blitter == blitter,
    {
        SurfaceHandle {
            window_id: self.window_id,
            surface: Surface { inner: self.inner, target_texture: None, blitter },
        }
    }
}

impl PendingSurface {
    /// Goes on with the surface that was made for the window, or ends with the error.
    pub fn created<S, E>(self, surface: Result<S, E>) -> (r: Result<UnfinishedSurface<S>, E>)
        ensures
            r == match surface {
                Ok(inner) => Ok(unfinished_surface(inner, self.window_id)),
                Err(error) => Err(error),
            },
            r is Ok <==> surface is Ok,
            r matches Ok(unfinished) ==> surface == Ok::<S, E>(unfinished.inner)
                && unfinished.window_id == self.window_id && unfinished.blitter_format
                == TextureFormat::Rgba8Unorm,
            r matches Err(error) ==> surface == Err::<S, E>(error),
    {
        match surface {
            Ok(inner) => Ok(UnfinishedSurface::new(inner, self.window_id)),
            Err(error) => Err(error),
        }
    }
}

} // verus!
