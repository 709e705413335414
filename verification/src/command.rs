use crate::descriptor::{
    RenderParams, SurfaceCapabilities, SurfaceConfiguration, TexelCopy, TextureDescriptor,
};
use crate::geometry::UVec2;
use crate::pipeline::{
    BindGroup, BindGroupLayout, BufferDescriptor, RenderPass, RenderPipeline, SamplerDescriptor,
    ShaderModule,
};
use vstd::prelude::*;

verus! {

/// Where a scene is drawn.
#[derive(Clone, Copy, Debug, PartialEq, Eq, Structural)]
pub enum RenderTarget {
    /// Into the texture that this frame created, through its view.
    NewTexture,
    /// Into the target texture that the surface keeps.
    SurfaceTarget,
}

/// One thing to do with the GPU, or with a lock. `F` is the adapter's type of surface formats
/// and `P` that of present modes.
#[derive(Debug, PartialEq, Eq)]
pub enum Command<F, P> {
    /// Lock the target texture of the surface, until the frame ends.
    LockTarget,
    CreateTexture(TextureDescriptor),
    /// View all of the texture that was created last.
    CreateTextureView,
    /// Make the texture that was created last, of this size, the surface's target.
    StoreTarget(UVec2),
    /// Ask what the adapter can do with the surface.
    QueryCapabilities,
    ConfigureSurface(SurfaceConfiguration<P>),
    LockRenderer,
    /// Let the texture of an entry of the render context stand for the entry's image, or the
    /// image stand for itself again.
    OverrideImage { entry: usize, texture: Option<TexelCopy> },
    /// Draw the scene. This can fail.
    RenderScene { target: RenderTarget, params: RenderParams },
    UnlockRenderer,
    CreateShaderModule(ShaderModule),
    CreateBindGroupLayout(BindGroupLayout),
    /// A layout of the one bind group, without push constants.
    CreatePipelineLayout,
    CreateRenderPipeline(RenderPipeline<F>),
    CreateBuffer(BufferDescriptor),
    CreateSampler(SamplerDescriptor),
    CreateBindGroup(BindGroup),
    /// Take the texture that is shown next. This can fail.
    AcquireSurfaceTexture,
    CreateCommandEncoder { label: &'static str },
    /// Record a copy of the surface's target into the acquired texture.
    Blit,
    /// Record a draw into the acquired texture.
    RenderPass(RenderPass),
    /// Hand what was recorded to the queue.
    Submit,
    /// Show the acquired texture.
    Present,
}

/// How a command went. `E` is the type of errors.
#[derive(Debug)]
pub enum Event<F, P, E> {
    Completed,
    /// The target texture is locked; if there is one, it has this size.
    TargetLocked(Option<UVec2>),
    Capabilities(SurfaceCapabilities<F, P>),
    Failed(E),
}

impl<F, P> Command<F, P> {
    /// Whether the command can fail.
    pub open spec fn is_fallible(self) -> bool {
        self is RenderScene || self is AcquireSurfaceTexture
    }
}

} // verus!
