//! What the commands of a frame do to the GPU, the renderer and the surface, and what each of
//! them needs to be there: a mathematical model, against which the laws of whole frames are
//! stated.

use crate::command::{Command, RenderTarget};
use crate::descriptor::{target_texture, RenderParams, TextureDescriptor, TextureFormat};
use crate::geometry::UVec2;
use crate::pipeline::{BufferContents, ShaderStage};
use crate::surface::blitter_format;
use vstd::prelude::*;

verus! {

/// The size and the format that a surface is set up with, and whether it can be drawn into.
pub struct SurfaceState {
    pub size: UVec2,
    pub format: TextureFormat,
    pub render_attachment: bool,
}

/// The target texture that a surface keeps, by its size.
pub open spec fn described(target: Option<UVec2>) -> Option<TextureDescriptor> {
    match target {
        Some(size) => Some(target_texture(size)),
        None => None,
    }
}

/// Whether a surface keeps a target texture of the size of `params` that the renderer can write.
pub open spec fn takes(target: Option<TextureDescriptor>, params: RenderParams) -> bool {
    target matches Some(target) && target.size.width == params.width && target.size.height
        == params.height && target.usage.storage_binding && target.format
        == TextureFormat::Rgba8Unorm
}

/// Whether a surface keeps a target texture of its own size that can be sampled, and the target
/// texture, the surface and the blitter have one format, and the surface can be drawn into.
pub open spec fn fits(
    target: Option<TextureDescriptor>,
    surface: Option<SurfaceState>,
    blitter: TextureFormat,
) -> bool {
    target matches Some(target) && surface matches Some(surface) && target.usage.texture_binding
        && target.size.width == surface.size.x && target.size.height == surface.size.y
        && target.format == surface.format && blitter == surface.format
        && surface.render_attachment
}

/// Which parts of the pipeline that draws an artboard onto a canvas have been made.
pub struct CanvasParts {
    pub vertex_shader: bool,
    pub fragment_shader: bool,
    pub bind_group_layout: bool,
    pub pipeline_layout: bool,
    pub pipeline: bool,
    pub transform_buffer: bool,
    pub vertex_buffer: bool,
    pub sampler: bool,
    pub bind_group: bool,
}

/// Nothing has been made yet.
pub open spec fn no_parts() -> CanvasParts {
    CanvasParts {
        vertex_shader: false,
        fragment_shader: false,
        bind_group_layout: false,
        pipeline_layout: false,
        pipeline: false,
        transform_buffer: false,
        vertex_buffer: false,
        sampler: false,
        bind_group: false,
    }
}

/// Everything has been made.
pub open spec fn all_parts() -> CanvasParts {
    CanvasParts {
        vertex_shader: true,
        fragment_shader: true,
        bind_group_layout: true,
        pipeline_layout: true,
        pipeline: true,
        transform_buffer: true,
        vertex_buffer: true,
        sampler: true,
        bind_group: true,
    }
}

/// The state of a renderer and a surface while a frame is drawn.
pub struct Device {
    /// For each image that a texture stands for in the renderer: the entry of the render context
    /// with that texture. The renderer keeps one texture for an image. This outlives the frame.
    pub overrides: Map<u64, int>,
    /// The surface's target texture, if it keeps one. This outlives the frame.
    pub target: Option<TextureDescriptor>,
    /// The format that the surface's blitter writes. This outlives the frame.
    pub blitter: TextureFormat,
    pub target_locked: bool,
    pub renderer_locked: bool,
    /// The texture that was created last, and the one that was viewed last.
    pub texture: Option<TextureDescriptor>,
    pub view: Option<TextureDescriptor>,
    /// Where the scene was drawn.
    pub drawn: Option<RenderTarget>,
    pub capabilities_known: bool,
    /// What the surface is set up with.
    pub surface: Option<SurfaceState>,
    /// What there is of the pipeline that draws an artboard onto a canvas.
    pub canvas: CanvasParts,
    /// Whether a texture of the surface is held that is not shown yet.
    pub acquired: bool,
    pub encoder: bool,
    pub recorded: bool,
    pub submitted: bool,
    /// How many textures have been shown.
    pub shown: nat,
}

impl Device {
    /// A renderer and a surface before a frame. `target` is the size of the target texture that
    /// the surface keeps.
    pub open spec fn before_frame(overrides: Map<u64, int>, target: Option<UVec2>) -> Device {
        Device {
            overrides,
            target: described(target),
            blitter: blitter_format(),
            target_locked: false,
            renderer_locked: false,
            texture: None,
            view: None,
            drawn: None,
            capabilities_known: false,
            surface: None,
            canvas: no_parts(),
            acquired: false,
            encoder: false,
            recorded: false,
            submitted: false,
            shown: 0,
        }
    }

    /// Whether all that `command` needs is there. `images` are the images of the entries of the
    /// render context.
    pub open spec fn ready<F, P>(self, images: Seq<u64>, command: Command<F, P>) -> bool {
        match command {
            Command::LockTarget => !self.target_locked,
            Command::CreateTexture(_) => true,
            Command::CreateTextureView => self.texture is Some,
            Command::StoreTarget(size) => {
                &&& self.target_locked
                &&& self.view matches Some(view) && view.size.width == size.x && view.size.height
                    == size.y
            },
            Command::QueryCapabilities => true,
            Command::ConfigureSurface(_) => self.capabilities_known && !self.acquired,
            Command::LockRenderer => !self.renderer_locked,
            Command::OverrideImage { entry, .. } => self.renderer_locked && entry < images.len(),
            Command::RenderScene { target, params } => {
                &&& self.renderer_locked
                &&& match target {
                    RenderTarget::NewTexture => self.view matches Some(view)
                        && view.usage.storage_binding && view.format == TextureFormat::Rgba8Unorm
                        && view.size.width >= params.width && view.size.height >= params.height,
                    RenderTarget::SurfaceTarget => self.target_locked && takes(
                        self.target,
                        params,
                    ),
                }
            },
            Command::UnlockRenderer => self.renderer_locked,
            Command::CreateShaderModule(_) => true,
            Command::CreateBindGroupLayout(_) => true,
            Command::CreatePipelineLayout => self.canvas.bind_group_layout,
            Command::CreateRenderPipeline(_) => {
                &&& self.canvas.pipeline_layout
                &&& self.canvas.vertex_shader
                &&& self.canvas.fragment_shader
            },
            Command::CreateBuffer(_) => true,
            Command::CreateSampler(_) => true,
            Command::CreateBindGroup(_) => {
                &&& self.canvas.bind_group_layout
                &&& self.canvas.transform_buffer
                &&& self.view matches Some(view) && view.usage.texture_binding
                &&& self.canvas.sampler
            },
            Command::AcquireSurfaceTexture => self.surface is Some && !self.acquired,
            Command::CreateCommandEncoder { .. } => !self.encoder,
            Command::Blit => {
                &&& self.target_locked
                &&& self.drawn == Some(RenderTarget::SurfaceTarget)
                &&& fits(self.target, self.surface, self.blitter)
                &&& self.acquired
                &&& self.encoder
            },
            Command::RenderPass(_) => {
                &&& self.drawn == Some(RenderTarget::NewTexture)
                &&& self.surface matches Some(surface) && surface.render_attachment
                &&& self.canvas.pipeline
                &&& self.canvas.bind_group
                &&& self.canvas.vertex_buffer
                &&& self.acquired
                &&& self.encoder
            },
            Command::Submit => self.encoder && self.recorded,
            Command::Present => self.acquired && self.submitted,
        }
    }

    /// The same state but for the parts of the pipeline.
    pub open spec fn with_canvas(self, canvas: CanvasParts) -> Device {
        Device { canvas, ..self }
    }

    /// The state after `command` went well.
    pub open spec fn after<F, P>(self, images: Seq<u64>, command: Command<F, P>) -> Device {
        match command {
            Command::LockTarget => Device { target_locked: true, ..self },
            Command::CreateTexture(texture) => Device { texture: Some(texture), ..self },
            Command::CreateTextureView => Device { view: self.texture, ..self },
            Command::StoreTarget(_) => Device { target: self.view, ..self },
            Command::QueryCapabilities => Device { capabilities_known: true, ..self },
            Command::ConfigureSurface(configuration) => Device {
                surface: Some(
                    SurfaceState {
                        size: UVec2 { x: configuration.width, y: configuration.height },
                        format: configuration.format,
                        render_attachment: configuration.usage.render_attachment,
                    },
                ),
                ..self
            },
            Command::LockRenderer => Device { renderer_locked: true, ..self },
            Command::OverrideImage { entry, texture } => Device {
                overrides: if texture is Some {
                    self.overrides.insert(images[entry as int], entry as int)
                } else {
                    self.overrides.remove(images[entry as int])
                },
                ..self
            },
            Command::RenderScene { target, .. } => Device { drawn: Some(target), ..self },
            Command::UnlockRenderer => Device { renderer_locked: false, ..self },
            Command::CreateShaderModule(module) => match module.stage {
                ShaderStage::Vertex => self.with_canvas(
                    CanvasParts { vertex_shader: true, ..self.canvas },
                ),
                ShaderStage::Fragment => self.with_canvas(
                    CanvasParts { fragment_shader: true, ..self.canvas },
                ),
            },
            Command::CreateBindGroupLayout(_) => self.with_canvas(
                CanvasParts { bind_group_layout: true, ..self.canvas },
            ),
            Command::CreatePipelineLayout => self.with_canvas(
                CanvasParts { pipeline_layout: true, ..self.canvas },
            ),
            Command::CreateRenderPipeline(_) => self.with_canvas(
                CanvasParts { pipeline: true, ..self.canvas },
            ),
            Command::CreateBuffer(buffer) => match buffer.contents {
                BufferContents::Transform(_) => self.with_canvas(
                    CanvasParts { transform_buffer: true, ..self.canvas },
                ),
                BufferContents::Canvas => self.with_canvas(
                    CanvasParts { vertex_buffer: true, ..self.canvas },
                ),
            },
            Command::CreateSampler(_) => self.with_canvas(
                CanvasParts { sampler: true, ..self.canvas },
            ),
            Command::CreateBindGroup(_) => self.with_canvas(
                CanvasParts { bind_group: true, ..self.canvas },
            ),
            Command::AcquireSurfaceTexture => Device { acquired: true, ..self },
            Command::CreateCommandEncoder { .. } => Device { encoder: true, ..self },
            Command::Blit => Device { recorded: true, ..self },
            Command::RenderPass(_) => Device { recorded: true, ..self },
            Command::Submit => Device { submitted: true, ..self },
            Command::Present => Device { acquired: false, shown: self.shown + 1, ..self },
        }
    }

    /// The state once the frame has ended, well or badly: its end gives back the locks that it
    /// still holds.
    pub open spec fn released(self) -> Device {
        Device { target_locked: false, renderer_locked: false, ..self }
    }

    /// The state after the first `n` of `commands` went well.
    #[verifier::opaque]
    pub open spec fn after_first<F, P>(
        self,
        images: Seq<u64>,
        commands: Seq<Command<F, P>>,
        n: nat,
    ) -> Device
        decreases n,
    {
        if n == 0 {
            self
        } else {
            self.after_first(images, commands, (n - 1) as nat).after(images, commands[n - 1])
        }
    }

    /// The state after all of `commands` went well.
    pub open spec fn after_all<F, P>(
        self,
        images: Seq<u64>,
        commands: Seq<Command<F, P>>,
    ) -> Device {
        self.after_first(images, commands, commands.len())
    }

    /// Whether all that each of `commands` needs is there when its turn comes.
    #[verifier::opaque]
    pub open spec fn ready_for_all<F, P>(
        self,
        images: Seq<u64>,
        commands: Seq<Command<F, P>>,
    ) -> bool {
        forall|n: nat|
            n < commands.len() ==> #[trigger] self.after_first(images, commands, n).ready(
                images,
                commands[n as int],
            )
    }
}

/// How a list is worked off.
pub(crate) proof fn lemma_steps<F, P>(
    device: Device,
    images: Seq<u64>,
    commands: Seq<Command<F, P>>,
    n: nat,
)
    ensures
        device.after_first(images, commands, 0) == device,
        device.after_first(images, commands, n + 1) == device.after_first(
            images,
            commands,
            n,
        ).after(images, commands[n as int]),
{
    reveal_with_fuel(Device::after_first, 2);
}

/// The first commands of a list do what they do without those that follow.
pub(crate) proof fn lemma_same_start<F, P>(
    device: Device,
    images: Seq<u64>,
    a: Seq<Command<F, P>>,
    b: Seq<Command<F, P>>,
    n: nat,
)
    requires
        n <= a.len(),
        n <= b.len(),
        forall|i: int| 0 <= i < n ==> a[i] == b[i],
    ensures
        device.after_first(images, a, n) == device.after_first(images, b, n),
    decreases n,
{
    reveal_with_fuel(Device::after_first, 2);
    if n > 0 {
        lemma_same_start(device, images, a, b, (n - 1) as nat);
    }
}

/// The commands of `b`, after those of `a`, do what they do from where `a` ends.
pub(crate) proof fn lemma_second_part<F, P>(
    device: Device,
    images: Seq<u64>,
    a: Seq<Command<F, P>>,
    b: Seq<Command<F, P>>,
    n: nat,
)
    requires
        n <= b.len(),
    ensures
        device.after_first(images, a + b, a.len() + n) == device.after_all(
            images,
            a,
        ).after_first(images, b, n),
    decreases n,
{
    reveal_with_fuel(Device::after_first, 2);
    if n == 0 {
        lemma_same_start(device, images, a + b, a, a.len());
    } else {
        lemma_second_part(device, images, a, b, (n - 1) as nat);
        assert((a + b)[a.len() + n - 1] == b[n - 1]);
    }
}

/// Two lists one after the other.
pub(crate) proof fn lemma_both_parts<F, P>(
    device: Device,
    images: Seq<u64>,
    a: Seq<Command<F, P>>,
    b: Seq<Command<F, P>>,
)
    requires
        device.ready_for_all(images, a),
        device.after_all(images, a).ready_for_all(images, b),
    ensures
        device.ready_for_all(images, a + b),
        device.after_all(images, a + b) == device.after_all(images, a).after_all(images, b),
{
    reveal(Device::ready_for_all);
    let middle = device.after_all(images, a);
    lemma_second_part(device, images, a, b, b.len());
    assert forall|n: nat| n < (a + b).len() implies #[trigger] device.after_first(
        images,
        a + b,
        n,
    ).ready(images, (a + b)[n as int]) by {
        if n < a.len() {
            lemma_same_start(device, images, a + b, a, n);
            assert(device.after_first(images, a, n).ready(images, a[n as int]));
        } else {
            let m = (n - a.len()) as nat;
            lemma_second_part(device, images, a, b, m);
            assert(middle.after_first(images, b, m).ready(images, b[m as int]));
        }
    }
}

/// One more command.
pub(crate) proof fn lemma_push<F, P>(
    device: Device,
    images: Seq<u64>,
    a: Seq<Command<F, P>>,
    command: Command<F, P>,
)
    requires
        device.ready_for_all(images, a),
        device.after_all(images, a).ready(images, command),
    ensures
        device.ready_for_all(images, a.push(command)),
        device.after_all(images, a.push(command)) == device.after_all(images, a).after(
            images,
            command,
        ),
{
    reveal(Device::ready_for_all);
    reveal_with_fuel(Device::after_first, 2);
    let b = a.push(command);
    lemma_same_start(device, images, b, a, a.len());
    assert forall|n: nat| n < b.len() implies #[trigger] device.after_first(
        images,
        b,
        n,
    ).ready(images, b[n as int]) by {
        lemma_same_start(device, images, b, a, n);
        if n < a.len() {
            assert(device.after_first(images, a, n).ready(images, a[n as int]));
        }
    }
}

} // verus!
