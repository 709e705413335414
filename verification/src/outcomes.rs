//! What frames, uploads, surfaces and executors come to, told by what was asked for and what was
//! answered: one law for each kind of command, for the order of the commands, for the answers,
//! and for what is made before the first frame.

use crate::command::{Command, Event, RenderTarget};
use crate::descriptor::{
    artboard_texture, output_texture, params_over, params_over_opaque, surface_configuration,
    target_texture, whole_texture, AaConfig, Capabilities, CompositeAlphaMode, RenderParams,
    SurfaceConfiguration, TexelCopy, TextureAspect, TextureDescriptor, TextureDimension,
    TextureFormat,
};
use crate::effects::lemma_start_is_valid;
use crate::executor::{pending_executor, started_executor, GpuSurface};
use crate::geometry::{unsigned_reading, UVec2};
use crate::job::{
    after_capabilities, artboard_size, draw_scene, install_overrides, law_frames_only_grow,
    opening, program, remove_overrides, Progress, Request,
};
use crate::laws::{answers, law_every_run_is_valid, run};
use crate::pipeline::{
    canvas_bind_group, canvas_bindings, canvas_pass, canvas_pipeline, linear_sampler,
    shader_module, transform_buffer, vertex_buffer, AddressMode, BindGroup, BindGroupLayout,
    BindingType, BufferContents, BufferDescriptor, FilterMode, FrontFace, LoadOp, PolygonMode,
    PrimitiveTopology, RenderPass, RenderPipeline, SamplerDescriptor, ShaderModule, ShaderStage,
    TextureViewDimension, Transform, VertexFormat, VertexStepMode,
};
use crate::surface::{unfinished_surface, SurfaceId};
use crate::upload::{byte_of, stored_words};
use vstd::prelude::*;

verus! {

// The commands at their places.

proof fn lemma_draw_scene_at<F, P>(target: RenderTarget, params: RenderParams, overrides: usize)
    ensures
        ({
            let draw = draw_scene::<F, P>(target, params, overrides);
            let n = overrides as int;
            &&& draw.len() == 2 * n + 3
            &&& draw[0] == Command::<F, P>::LockRenderer
            &&& forall|i: int|
                1 <= i <= n ==> #[trigger] draw[i] == (Command::<F, P>::OverrideImage {
                    entry: (i - 1) as usize,
                    texture: Some(whole_texture()),
                })
            &&& draw[n + 1] == (Command::<F, P>::RenderScene { target, params })
            &&& forall|i: int|
                n + 2 <= i <= 2 * n + 1 ==> #[trigger] draw[i] == (Command::<
                    F,
                    P,
                >::OverrideImage { entry: (i - n - 2) as usize, texture: None })
            &&& draw[2 * n + 2] == Command::<F, P>::UnlockRenderer
        }),
{
    let draw = draw_scene::<F, P>(target, params, overrides);
    let n = overrides as int;
    assert forall|i: int| 1 <= i <= n implies #[trigger] draw[i] == (Command::<
        F,
        P,
    >::OverrideImage { entry: (i - 1) as usize, texture: Some(whole_texture()) }) by {
        assert(draw[i] == install_overrides::<F, P>(overrides)[i - 1]);
    }
    assert forall|i: int| n + 2 <= i <= 2 * n + 1 implies #[trigger] draw[i] == (Command::<
        F,
        P,
    >::OverrideImage { entry: (i - n - 2) as usize, texture: None }) by {
        assert(draw[i] == remove_overrides::<F, P>(overrides)[i - n - 2]);
    }
}

/// Whether the commands from `at` on are those of a drawing.
spec fn draws_at<F, P>(
    commands: Seq<Command<F, P>>,
    at: int,
    target: RenderTarget,
    params: RenderParams,
    n: int,
) -> bool {
    &&& commands[at] == Command::<F, P>::LockRenderer
    &&& forall|i: int|
        at < i <= at + n ==> #[trigger] commands[i] == (Command::<F, P>::OverrideImage {
            entry: (i - at - 1) as usize,
            texture: Some(whole_texture()),
        })
    &&& commands[at + n + 1] == (Command::<F, P>::RenderScene { target, params })
    &&& forall|i: int|
        at + n + 1 < i <= at + 2 * n + 1 ==> #[trigger] commands[i] == (Command::<
            F,
            P,
        >::OverrideImage { entry: (i - at - n - 2) as usize, texture: None })
    &&& commands[at + 2 * n + 2] == Command::<F, P>::UnlockRenderer
}

proof fn lemma_draws_at<F, P>(
    commands: Seq<Command<F, P>>,
    at: int,
    target: RenderTarget,
    params: RenderParams,
    overrides: usize,
)
    requires
        forall|i: int|
            0 <= i < 2 * overrides + 3 ==> commands[at + i] == #[trigger] draw_scene::<F, P>(
                target,
                params,
                overrides,
            )[i],
    ensures
        draws_at(commands, at, target, params, overrides as int),
{
    let draw = draw_scene::<F, P>(target, params, overrides);
    let n = overrides as int;
    lemma_draw_scene_at::<F, P>(target, params, overrides);
    assert(commands[at + 0] == draw[0]);
    assert(commands[at + (n + 1)] == draw[n + 1]);
    assert(commands[at + (2 * n + 2)] == draw[2 * n + 2]);
    assert forall|i: int| at < i <= at + n implies #[trigger] commands[i] == (Command::<
        F,
        P,
    >::OverrideImage { entry: (i - at - 1) as usize, texture: Some(whole_texture()) }) by {
        assert(commands[at + (i - at)] == draw[i - at]);
    }
    assert forall|i: int|
        at + n + 1 < i <= at + 2 * n + 1 implies #[trigger] commands[i] == (Command::<
        F,
        P,
    >::OverrideImage { entry: (i - at - n - 2) as usize, texture: None }) by {
        assert(commands[at + (i - at)] == draw[i - at]);
    }
}

/// The commands of a frame that draws an artboard, each at its place.
spec fn is_pixels_program<F, P>(
    all: Seq<Command<F, P>>,
    request: Request,
    kept: Option<Option<UVec2>>,
    capabilities: Option<Capabilities<F, P>>,
) -> bool {
    request matches Request::ViewModePixels {
        artboard_dimensions,
        footprint,
        background,
        overrides,
    } && ({
        let n = overrides as int;
        let o = 2 * n + 6;
        let params = params_over_opaque(artboard_size(artboard_dimensions), background);
        &&& all.len() == if capabilities is None {
            o
        } else if footprint.is_past_canvas() {
            o + 10
        } else {
            o + 15
        }
        &&& all[0] == Command::<F, P>::CreateTexture(artboard_texture(artboard_dimensions))
        &&& all[1] == Command::<F, P>::CreateTextureView
        &&& draws_at(all, 2, RenderTarget::NewTexture, params, n)
        &&& all[o - 1] == Command::<F, P>::QueryCapabilities
        &&& capabilities matches Some(found) ==> {
            &&& all[o] == Command::<F, P>::ConfigureSurface(
                surface_configuration(footprint.resolution, found.present_modes[0], true),
            )
            &&& all[o + 1] == Command::<F, P>::CreateShaderModule(
                shader_module(ShaderStage::Vertex),
            )
            &&& all[o + 2] == Command::<F, P>::CreateShaderModule(
                shader_module(ShaderStage::Fragment),
            )
            &&& all[o + 3] == Command::<F, P>::CreateBindGroupLayout(canvas_bindings())
            &&& all[o + 4] == Command::<F, P>::CreatePipelineLayout
            &&& all[o + 5] == Command::<F, P>::CreateRenderPipeline(
                canvas_pipeline(found.formats[0]),
            )
            &&& all[o + 6] == Command::<F, P>::CreateBuffer(
                transform_buffer(footprint.transform),
            )
            &&& all[o + 7] == Command::<F, P>::CreateSampler(linear_sampler())
            &&& all[o + 8] == Command::<F, P>::CreateBuffer(vertex_buffer())
            &&& all[o + 9] == Command::<F, P>::CreateBindGroup(canvas_bind_group())
            &&& !footprint.is_past_canvas() ==> {
                &&& all[o + 10] == Command::<F, P>::AcquireSurfaceTexture
                &&& all[o + 11] == (Command::<F, P>::CreateCommandEncoder {
                    label: "Surface Blit",
                })
                &&& all[o + 12] == Command::<F, P>::RenderPass(canvas_pass())
                &&& all[o + 13] == Command::<F, P>::Submit
                &&& all[o + 14] == Command::<F, P>::Present
            }
        }
    })
}

proof fn lemma_pixels_at<F, P, E>(progress: Progress<F, P, E>)
    requires
        progress.valid(),
        progress.request is ViewModePixels,
    ensures
        is_pixels_program(
            progress.program(),
            progress.request,
            progress.kept,
            progress.capabilities,
        ),
{
    if let Request::ViewModePixels {
        artboard_dimensions,
        footprint,
        background,
        overrides,
    } = progress.request {
        let all = progress.program();
        let first = opening::<F, P>(progress.request);
        let params = params_over_opaque(artboard_size(artboard_dimensions), background);
        let draw = draw_scene::<F, P>(RenderTarget::NewTexture, params, overrides);
        lemma_draw_scene_at::<F, P>(RenderTarget::NewTexture, params, overrides);
        assert forall|i: int| 0 <= i < 2 * overrides + 3 implies all[2 + i]
            == #[trigger] draw[i] by {
            assert(all[2 + i] == first[2 + i]);
        }
        lemma_draws_at(all, 2, RenderTarget::NewTexture, params, overrides);
    }
}

/// The commands of a frame that draws a scene onto a surface, each at its place.
spec fn is_scene_program<F, P>(
    all: Seq<Command<F, P>>,
    request: Request,
    kept: Option<Option<UVec2>>,
    capabilities: Option<Capabilities<F, P>>,
) -> bool {
    request matches Request::Scene { size, background, overrides } && ({
        let n = overrides as int;
        let q = if kept == Some(Some(size)) {
            1int
        } else {
            4
        };
        &&& all.len() == if kept is None {
            1
        } else if capabilities is None {
            q + 1
        } else {
            q + 2 * n + 10
        }
        &&& all[0] == Command::<F, P>::LockTarget
        &&& kept is Some ==> {
            &&& q == 4 ==> {
                &&& all[1] == Command::<F, P>::CreateTexture(target_texture(size))
                &&& all[2] == Command::<F, P>::CreateTextureView
                &&& all[3] == Command::<F, P>::StoreTarget(size)
            }
            &&& all[q] == Command::<F, P>::QueryCapabilities
        }
        &&& capabilities matches Some(found) ==> {
            let params = params_over_opaque(size, background);
            &&& all[q + 1] == Command::<F, P>::ConfigureSurface(
                surface_configuration(size, found.present_modes[0], false),
            )
            &&& draws_at(all, q + 2, RenderTarget::SurfaceTarget, params, n)
            &&& all[q + 2 * n + 5] == Command::<F, P>::AcquireSurfaceTexture
            &&& all[q + 2 * n + 6] == (Command::<F, P>::CreateCommandEncoder {
                label: "Surface Blit",
            })
            &&& all[q + 2 * n + 7] == Command::<F, P>::Blit
            &&& all[q + 2 * n + 8] == Command::<F, P>::Submit
            &&& all[q + 2 * n + 9] == Command::<F, P>::Present
        }
    })
}

proof fn lemma_scene_at<F, P, E>(progress: Progress<F, P, E>)
    requires
        progress.valid(),
        progress.request is Scene,
    ensures
        is_scene_program(
            progress.program(),
            progress.request,
            progress.kept,
            progress.capabilities,
        ),
{
    if let Request::Scene { size, background, overrides } = progress.request {
        let all = progress.program();
        if let Some(found) = progress.capabilities {
            let rest = after_capabilities(progress.request, found);
            let first = program::<F, P>(progress.request, progress.kept, None);
            let params = params_over_opaque(size, background);
            let draw = draw_scene::<F, P>(RenderTarget::SurfaceTarget, params, overrides);
            lemma_draw_scene_at::<F, P>(RenderTarget::SurfaceTarget, params, overrides);
            assert(all =~= first + rest);
            let at = (first.len() + 1) as int;
            assert forall|i: int| 0 <= i < 2 * overrides + 3 implies all[at + i]
                == #[trigger] draw[i] by {
                assert(all[at + i] == rest[1 + i]);
            }
            lemma_draws_at(all, at, RenderTarget::SurfaceTarget, params, overrides);
        }
    }
}

/// The commands of a frame that draws a scene into a texture, each at its place.
spec fn is_texture_program<F, P>(
    all: Seq<Command<F, P>>,
    request: Request,
    kept: Option<Option<UVec2>>,
    capabilities: Option<Capabilities<F, P>>,
) -> bool {
    request matches Request::Texture { size, background, overrides } && ({
        let n = overrides as int;
        let params = params_over(size, background);
        &&& all.len() == 2 * n + 5
        &&& all[0] == Command::<F, P>::CreateTexture(output_texture(size))
        &&& all[1] == Command::<F, P>::CreateTextureView
        &&& draws_at(all, 2, RenderTarget::NewTexture, params, n)
    })
}

proof fn lemma_texture_at<F, P, E>(progress: Progress<F, P, E>)
    requires
        progress.valid(),
        progress.request is Texture,
    ensures
        is_texture_program(
            progress.program(),
            progress.request,
            progress.kept,
            progress.capabilities,
        ),
{
    if let Request::Texture { size, background, overrides } = progress.request {
        let all = progress.program();
        let params = params_over(size, background);
        let draw = draw_scene::<F, P>(RenderTarget::NewTexture, params, overrides);
        lemma_draw_scene_at::<F, P>(RenderTarget::NewTexture, params, overrides);
        assert forall|i: int| 0 <= i < 2 * overrides + 3 implies all[2 + i]
            == #[trigger] draw[i] by {}
        lemma_draws_at(all, 2, RenderTarget::NewTexture, params, overrides);
    }
}

/// What a command of a frame holds, by its kind.
spec fn as_asked<F, P>(
    command: Command<F, P>,
    request: Request,
    capabilities: Option<Capabilities<F, P>>,
    i: int,
) -> bool {
    let n = request.overrides() as int;
    match command {
        Command::CreateTexture(texture) => texture == match request {
            Request::ViewModePixels { artboard_dimensions, .. } => artboard_texture(
                artboard_dimensions,
            ),
            Request::Scene { size, .. } => target_texture(size),
            Request::Texture { size, .. } => output_texture(size),
        },
        Command::StoreTarget(stored) => request matches Request::Scene { size, .. }
            && stored == size,
        Command::ConfigureSurface(configuration) => {
            &&& capabilities is Some
            &&& configuration == match request {
                Request::ViewModePixels { footprint, .. } => surface_configuration(
                    footprint.resolution,
                    capabilities.unwrap().present_modes[0],
                    true,
                ),
                Request::Scene { size, .. } => surface_configuration(
                    size,
                    capabilities.unwrap().present_modes[0],
                    false,
                ),
                Request::Texture { .. } => configuration,
            }
            &&& !(request is Texture)
        },
        Command::OverrideImage { entry, texture } => {
            &&& entry < n
            &&& texture is Some ==> texture == Some(whole_texture())
        },
        Command::RenderScene { target, params } => match request {
            Request::ViewModePixels { artboard_dimensions, background, .. } => target
                == RenderTarget::NewTexture && params == params_over_opaque(
                artboard_size(artboard_dimensions),
                background,
            ),
            Request::Scene { size, background, .. } => target
                == RenderTarget::SurfaceTarget && params == params_over_opaque(
                size,
                background,
            ),
            Request::Texture { size, background, .. } => target
                == RenderTarget::NewTexture && params == params_over(size, background),
        },
        Command::CreateShaderModule(module) => module == shader_module(module.stage)
            && request is ViewModePixels,
        Command::CreateBindGroupLayout(layout) => layout == canvas_bindings(),
        Command::CreateRenderPipeline(pipeline) => {
            &&& capabilities is Some
            &&& pipeline == canvas_pipeline(capabilities.unwrap().formats[0])
        },
        Command::CreateBuffer(buffer) => request matches Request::ViewModePixels {
            footprint,
            ..
        } && (buffer == transform_buffer(footprint.transform) && i == 2 * n + 12 || buffer
            == vertex_buffer() && i == 2 * n + 14),
        Command::CreateSampler(sampler) => sampler == linear_sampler(),
        Command::CreateBindGroup(group) => group == canvas_bind_group(),
        Command::CreateCommandEncoder { label } => label == "Surface Blit",
        Command::RenderPass(pass) => pass == canvas_pass(),
        _ => true,
    }
}

proof fn lemma_pixels_command<F, P>(
    all: Seq<Command<F, P>>,
    request: Request,
    kept: Option<Option<UVec2>>,
    capabilities: Option<Capabilities<F, P>>,
    i: int,
)
    requires
        request is ViewModePixels,
        is_pixels_program(all, request, kept, capabilities),
        0 <= i < all.len(),
    ensures
        as_asked(all[i], request, capabilities, i),
{
    let n = request.overrides() as int;
    if i < 3 || i == n + 3 || i >= 2 * n + 4 {
    } else {
        assert(all[i] is OverrideImage);
    }
}

proof fn lemma_scene_command<F, P>(
    all: Seq<Command<F, P>>,
    request: Request,
    kept: Option<Option<UVec2>>,
    capabilities: Option<Capabilities<F, P>>,
    i: int,
)
    requires
        request is Scene,
        capabilities is Some ==> kept is Some,
        is_scene_program(all, request, kept, capabilities),
        0 <= i < all.len(),
    ensures
        as_asked(all[i], request, capabilities, i),
{
}

proof fn lemma_texture_command<F, P>(
    all: Seq<Command<F, P>>,
    request: Request,
    kept: Option<Option<UVec2>>,
    capabilities: Option<Capabilities<F, P>>,
    i: int,
)
    requires
        request is Texture,
        is_texture_program(all, request, kept, capabilities),
        0 <= i < all.len(),
    ensures
        as_asked(all[i], request, capabilities, i),
{
}

proof fn lemma_command<F, P, E>(progress: Progress<F, P, E>, i: int)
    requires
        progress.valid(),
        0 <= i < progress.program().len(),
    ensures
        as_asked(progress.program()[i], progress.request, progress.capabilities, i),
{
    let all = progress.program();
    let request = progress.request;
    let kept = progress.kept;
    let capabilities = progress.capabilities;
    match request {
        Request::ViewModePixels { .. } => {
            lemma_pixels_at(progress);
            lemma_pixels_command(all, request, kept, capabilities, i);
        },
        Request::Scene { .. } => {
            lemma_scene_at(progress);
            lemma_scene_command(all, request, kept, capabilities, i);
        },
        Request::Texture { .. } => {
            lemma_texture_at(progress);
            lemma_texture_command(all, request, kept, capabilities, i);
        },
    }
}

// What each kind of command holds.

/// Every texture that a frame creates is flat, with one layer, one mip level and one sample per
/// pixel, in the one format of the library and viewed in no other. The renderer can write it and
/// shaders can sample it; only that of an artboard can be copied. It is as large as what is drawn
/// into it: for an artboard the sides are the same numbers modulo two to the power of 32, and the
/// texture that a scene is handed out in has at least one pixel.
pub proof fn law_created_textures<F, P, E>(
    progress: Progress<F, P, E>,
    i: int,
    texture: TextureDescriptor,
)
    requires
        progress.valid(),
        0 <= i < progress.program().len(),
        progress.program()[i] == Command::<F, P>::CreateTexture(texture),
    ensures
        texture.size.depth_or_array_layers == 1,
        texture.mip_level_count == 1,
        texture.sample_count == 1,
        texture.dimension == TextureDimension::D2,
        texture.usage.storage_binding,
        texture.usage.texture_binding,
        texture.usage.copy_src <==> progress.request is ViewModePixels,
        !texture.usage.copy_dst,
        !texture.usage.render_attachment,
        texture.format == TextureFormat::Rgba8Unorm,
        !texture.view_formats.rgba8_unorm,
        !texture.view_formats.rgba8_unorm_srgb,
        !texture.view_formats.bgra8_unorm,
        !texture.view_formats.bgra8_unorm_srgb,
        match progress.request {
            Request::ViewModePixels { artboard_dimensions, .. } => {
                &&& texture.label == Some("artboard texture")
                &&& (texture.size.width - artboard_dimensions.x) % 0x1_0000_0000 == 0
                &&& (texture.size.height - artboard_dimensions.y) % 0x1_0000_0000 == 0
            },
            Request::Scene { size, .. } => {
                &&& texture.label is None
                &&& texture.size.width == size.x
                &&& texture.size.height == size.y
            },
            Request::Texture { size, .. } => {
                &&& texture.label is None
                &&& texture.size.width == if size.x > 1 {
                    size.x
                } else {
                    1
                }
                &&& texture.size.height == if size.y > 1 {
                    size.y
                } else {
                    1
                }
            },
        },
{
    lemma_command(progress, i);
}

/// The target that a frame leaves with a surface has the size of the scene.
pub proof fn law_stored_targets<F, P, E>(
    progress: Progress<F, P, E>,
    i: int,
    stored: UVec2,
)
    requires
        progress.valid(),
        0 <= i < progress.program().len(),
        progress.program()[i] == Command::<F, P>::StoreTarget(stored),
    ensures
        progress.request matches Request::Scene { size, .. } && stored.x == size.x && stored.y
            == size.y,
{
    lemma_command(progress, i);
}

/// A surface is set up with the size of the canvas or of the scene and with the present mode that
/// the adapter names first. It can be drawn into by a pass or a blitter and written as storage, and
/// copied into where an artboard is drawn onto it. It is opaque, in the one format of the library
/// and viewed in no other, with at most two frames under way.
pub proof fn law_configured_surfaces<F, P, E>(
    progress: Progress<F, P, E>,
    i: int,
    configuration: SurfaceConfiguration<P>,
)
    requires
        progress.valid(),
        0 <= i < progress.program().len(),
        progress.program()[i] == Command::<F, P>::ConfigureSurface(configuration),
    ensures
        configuration.usage.render_attachment,
        configuration.usage.storage_binding,
        configuration.usage.copy_dst <==> progress.request is ViewModePixels,
        !configuration.usage.copy_src,
        !configuration.usage.texture_binding,
        configuration.format == TextureFormat::Rgba8Unorm,
        configuration.alpha_mode == CompositeAlphaMode::Opaque,
        configuration.desired_maximum_frame_latency == 2,
        !configuration.view_formats.rgba8_unorm,
        !configuration.view_formats.rgba8_unorm_srgb,
        !configuration.view_formats.bgra8_unorm,
        !configuration.view_formats.bgra8_unorm_srgb,
        progress.capabilities matches Some(found) && configuration.present_mode
            == found.present_modes[0],
        match progress.request {
            Request::ViewModePixels { footprint, .. } => {
                &&& configuration.width == footprint.resolution.x
                &&& configuration.height == footprint.resolution.y
            },
            Request::Scene { size, .. } => {
                &&& configuration.width == size.x
                &&& configuration.height == size.y
            },
            Request::Texture { .. } => false,
        },
{
    lemma_command(progress, i);
}

/// What a frame overrides is an entry of its render context, and what stands for its image is the
/// whole base level of the entry's texture, or nothing.
pub proof fn law_overridden_images<F, P, E>(
    progress: Progress<F, P, E>,
    i: int,
    entry: usize,
    texture: Option<TexelCopy>,
)
    requires
        progress.valid(),
        0 <= i < progress.program().len(),
        progress.program()[i] == (Command::<F, P>::OverrideImage { entry, texture }),
    ensures
        match progress.request {
            Request::ViewModePixels { overrides, .. } => entry < overrides,
            Request::Scene { overrides, .. } => entry < overrides,
            Request::Texture { overrides, .. } => entry < overrides,
        },
        texture matches Some(copy) ==> {
            &&& copy.mip_level == 0
            &&& copy.origin.x == 0
            &&& copy.origin.y == 0
            &&& copy.origin.z == 0
            &&& copy.aspect == TextureAspect::All
        },
{
    lemma_command(progress, i);
}

/// A scene is drawn with sixteen samples per pixel, over the red, green and blue of the
/// background. What goes onto a surface is drawn over an opaque colour, what is handed out over the
/// background's own alpha. An artboard is drawn pixel for pixel, any other scene at its size, and
/// only a scene for a surface goes into the target that the surface keeps.
pub proof fn law_drawn_scenes<F, P, E>(
    progress: Progress<F, P, E>,
    i: int,
    target: RenderTarget,
    params: RenderParams,
)
    requires
        progress.valid(),
        0 <= i < progress.program().len(),
        progress.program()[i] == (Command::<F, P>::RenderScene { target, params }),
    ensures
        params.antialiasing_method == AaConfig::Msaa16,
        target == RenderTarget::SurfaceTarget <==> progress.request is Scene,
        match progress.request {
            Request::ViewModePixels { artboard_dimensions, background, .. } => {
                &&& (params.width - artboard_dimensions.x) % 0x1_0000_0000 == 0
                &&& (params.height - artboard_dimensions.y) % 0x1_0000_0000 == 0
                &&& params.base_color.r == background.r
                &&& params.base_color.g == background.g
                &&& params.base_color.b == background.b
                &&& params.base_color.a == 0xff
            },
            Request::Scene { size, background, .. } => {
                &&& params.width == size.x
                &&& params.height == size.y
                &&& params.base_color.r == background.r
                &&& params.base_color.g == background.g
                &&& params.base_color.b == background.b
                &&& params.base_color.a == 0xff
            },
            Request::Texture { size, background, .. } => {
                &&& params.width == size.x
                &&& params.height == size.y
                &&& params.base_color.r == background.r
                &&& params.base_color.g == background.g
                &&& params.base_color.b == background.b
                &&& params.base_color.a == background.a
            },
        },
{
    lemma_command(progress, i);
}

/// The vertex stage moves a corner by the transform, keeps it in the plane and hands on where in
/// the artboard it lies, from zero to one; the fragment stage samples the artboard there.
pub proof fn law_shader_modules<F, P, E>(
    progress: Progress<F, P, E>,
    i: int,
    module: ShaderModule,
)
    requires
        progress.valid(),
        0 <= i < progress.program().len(),
        progress.program()[i] == Command::<F, P>::CreateShaderModule(module),
    ensures
        module.stage == ShaderStage::Vertex ==> module.label == "Transform Vertex"
            && module.source == r#"
				@group(0) @binding(0) var<uniform> affine_transform: mat2x3<f32>;

				struct VertexOutput {
					@builtin(position) clip_position: vec4<f32>,
					@location(0) uv: vec2<f32>,
				}

				@vertex
				fn vs_main(@location(0) position: vec2<f32>) -> VertexOutput {
					var out: VertexOutput;
					let transformed = affine_transform * vec3<f32>(position, 1.0);
					out.clip_position = vec4<f32>(transformed, 0.0, 1.0);
					out.uv = (position + 1.0) * 0.5;
					return out
				}
				"#,
        module.stage == ShaderStage::Fragment ==> module.label == "Downscale Fragment"
            && module.source == r#"
				@group(0) @binding(0) var artboard_texture: texture_2d<f32>;
				@group(0) @binding(1) var linear_sampler: sampler;

				@fragment
				fn fs_main(@location(0) uv: vec2<f32>) -> @location(0) vec4<f32> {
					return textureSample(artboard_texture, linear_sampler, uv);
				}
			"#,
{
    lemma_command(progress, i);
}

/// The vertex stage sees the transform, as a uniform buffer of any size at a fixed place, and the
/// fragment stage sees the artboard, as a flat texture that can be filtered, and a sampler that
/// filters, in this order and one of each.
pub proof fn law_bind_group_layouts<F, P, E>(
    progress: Progress<F, P, E>,
    i: int,
    layout: BindGroupLayout,
)
    requires
        progress.valid(),
        0 <= i < progress.program().len(),
        progress.program()[i] == Command::<F, P>::CreateBindGroupLayout(layout),
    ensures
        layout.affine_transformation.binding == 0,
        layout.affine_transformation.visibility == ShaderStage::Vertex,
        layout.affine_transformation.ty matches BindingType::Uniform {
            has_dynamic_offset,
            min_binding_size,
        } && !has_dynamic_offset && min_binding_size is None,
        layout.affine_transformation.count is None,
        layout.artboard_texture.binding == 1,
        layout.artboard_texture.visibility == ShaderStage::Fragment,
        layout.artboard_texture.ty matches BindingType::Texture {
            multisampled,
            view_dimension,
            filterable,
        } && !multisampled && view_dimension == TextureViewDimension::D2 && filterable,
        layout.artboard_texture.count is None,
        layout.linear_sampler.binding == 2,
        layout.linear_sampler.visibility == ShaderStage::Fragment,
        layout.linear_sampler.ty matches BindingType::Sampler { filtering } && filtering,
        layout.linear_sampler.count is None,
{
    lemma_command(progress, i);
}

/// The pipeline draws into the format that the adapter names first, all channels of it and without
/// blending. It takes vertices of two floating-point numbers one after the other, each eight bytes
/// from the last, makes filled triangles of them whichever way they face, and writes one sample per
/// pixel without a depth test.
pub proof fn law_render_pipelines<F, P, E>(
    progress: Progress<F, P, E>,
    i: int,
    pipeline: RenderPipeline<F>,
)
    requires
        progress.valid(),
        0 <= i < progress.program().len(),
        progress.program()[i] == Command::<F, P>::CreateRenderPipeline(pipeline),
    ensures
        progress.capabilities matches Some(found) && pipeline.target.format == found.formats[0],
        pipeline.target.blend is None,
        pipeline.target.write_red,
        pipeline.target.write_green,
        pipeline.target.write_blue,
        pipeline.target.write_alpha,
        pipeline.label == "Artboard to Canvas Pipeline",
        pipeline.vertex_entry_point == "vs_main",
        pipeline.fragment_entry_point == "fs_main",
        pipeline.vertex_buffer.array_stride == 8,
        pipeline.vertex_buffer.step_mode == VertexStepMode::Vertex,
        pipeline.vertex_buffer.offset == 0,
        pipeline.vertex_buffer.shader_location == 0,
        pipeline.vertex_buffer.format == VertexFormat::Float32x2,
        pipeline.zero_initialize_workgroup_memory,
        pipeline.primitive.topology == PrimitiveTopology::TriangleList,
        pipeline.primitive.strip_index_format is None,
        pipeline.primitive.front_face == FrontFace::Ccw,
        pipeline.primitive.cull_mode is None,
        !pipeline.primitive.unclipped_depth,
        pipeline.primitive.polygon_mode == PolygonMode::Fill,
        !pipeline.primitive.conservative,
        pipeline.depth_test is None,
        pipeline.multisample.count == 1,
        pipeline.multisample.mask == 0xffff_ffff_ffff_ffff,
        !pipeline.multisample.alpha_to_coverage_enabled,
        pipeline.multiview is None,
        !pipeline.cached,
{
    lemma_command(progress, i);
}

/// A frame uploads the transform of its footprint for the shaders, in a buffer that can be
/// overwritten, and the corners of the canvas as vertices, in one that cannot. The sampler is made
/// in between.
pub proof fn law_created_buffers<F, P, E>(
    progress: Progress<F, P, E>,
    i: int,
    buffer: BufferDescriptor,
)
    requires
        progress.valid(),
        0 <= i < progress.program().len(),
        progress.program()[i] == Command::<F, P>::CreateBuffer(buffer),
    ensures
        progress.request matches Request::ViewModePixels { footprint, overrides, .. } && {
            ||| {
                &&& i == 2 * overrides + 12
                &&& buffer.contents == BufferContents::Transform(footprint.transform)
                &&& buffer.label == "Affine transform buffer"
                &&& buffer.usage.uniform
                &&& buffer.usage.copy_dst
                &&& !buffer.usage.vertex
            }
            ||| {
                &&& i == 2 * overrides + 14
                &&& buffer.contents == BufferContents::Canvas
                &&& buffer.label == "Vertex Buffer"
                &&& buffer.usage.vertex
                &&& !buffer.usage.copy_dst
                &&& !buffer.usage.uniform
            }
        },
{
    lemma_command(progress, i);
}

/// The artboard is sampled by blending neighbouring pixels, from its edge where a place lies
/// outside of it, and from the nearest mip level of all that there are.
pub proof fn law_created_samplers<F, P, E>(
    progress: Progress<F, P, E>,
    i: int,
    sampler: SamplerDescriptor,
)
    requires
        progress.valid(),
        0 <= i < progress.program().len(),
        progress.program()[i] == Command::<F, P>::CreateSampler(sampler),
    ensures
        sampler.label is None,
        sampler.address_mode_u == AddressMode::ClampToEdge,
        sampler.address_mode_v == AddressMode::ClampToEdge,
        sampler.address_mode_w == AddressMode::ClampToEdge,
        sampler.mag_filter == FilterMode::Linear,
        sampler.min_filter == FilterMode::Linear,
        sampler.mipmap_filter == FilterMode::Nearest,
        sampler.lod_min_clamp == 0,
        sampler.lod_max_clamp == 0x4200_0000,
        sampler.compare is None,
        sampler.anisotropy_clamp == 1,
        sampler.border_color is None,
{
    lemma_command(progress, i);
}

/// The transform, the artboard and the sampler are bound in this order.
pub proof fn law_created_bind_groups<F, P, E>(
    progress: Progress<F, P, E>,
    i: int,
    group: BindGroup,
)
    requires
        progress.valid(),
        0 <= i < progress.program().len(),
        progress.program()[i] == Command::<F, P>::CreateBindGroup(group),
    ensures
        group.label == "Bind Group",
        group.transform_buffer == 0,
        group.artboard_view == 1,
        group.linear_sampler == 2,
{
    lemma_command(progress, i);
}

/// A pass starts from transparent pixels, draws the four corners once with the first bind group and
/// the first vertex buffer, and keeps what it has drawn.
pub proof fn law_render_passes<F, P, E>(
    progress: Progress<F, P, E>,
    i: int,
    pass: RenderPass,
)
    requires
        progress.valid(),
        0 <= i < progress.program().len(),
        progress.program()[i] == Command::<F, P>::RenderPass(pass),
    ensures
        pass.load == LoadOp::ClearTransparent,
        pass.store,
        pass.bind_group_index == 0,
        pass.vertex_buffer_slot == 0,
        pass.first_vertex == 0,
        pass.end_vertex == 4,
        pass.first_instance == 0,
        pass.end_instance == 1,
{
    lemma_command(progress, i);
}

/// What is shown on a surface is recorded under one name.
pub proof fn law_command_encoders<F, P, E>(
    progress: Progress<F, P, E>,
    i: int,
    name: &'static str,
)
    requires
        progress.valid(),
        0 <= i < progress.program().len(),
        progress.program()[i] == (Command::<F, P>::CreateCommandEncoder { label: name }),
    ensures
        name == "Surface Blit",
{
    lemma_command(progress, i);
}

// The order of the commands.

/// Whether the commands from `at` on lock the renderer, put the textures of `n` entries in place
/// from the first on, draw, take the textures back from the first on, and unlock the renderer.
pub open spec fn draws_in_order<F, P>(commands: Seq<Command<F, P>>, at: int, n: int) -> bool {
    &&& commands[at] is LockRenderer
    &&& forall|i: int|
        at < i <= at + n ==> (#[trigger] commands[i] matches Command::OverrideImage {
            entry,
            texture,
        } && entry == i - at - 1 && texture is Some)
    &&& commands[at + n + 1] is RenderScene
    &&& forall|i: int|
        at + n + 1 < i <= at + 2 * n + 1 ==> (
        #[trigger] commands[i] matches Command::OverrideImage { entry, texture } && entry == i - at
            - n - 2 && texture is None)
    &&& commands[at + 2 * n + 2] is UnlockRenderer
}

/// A frame that draws an artboard draws it into a new texture, asks the adapter, sets the surface
/// up and builds the pipeline. It shows the artboard exactly if the artboard's origin lies left of
/// the right edge of the canvas and above its lower edge, and ends otherwise.
#[verifier::rlimit(30)]
pub proof fn law_order_of_an_artboard_frame<F, P, E>(progress: Progress<F, P, E>)
    requires
        progress.valid(),
        progress.request is ViewModePixels,
    ensures
        progress.request matches Request::ViewModePixels { footprint, overrides, .. } && ({
            let all = progress.program();
            let n = overrides as int;
            let inside = footprint.translation.x < footprint.resolution.x
                && footprint.translation.y < footprint.resolution.y;
            &&& all[0] is CreateTexture
            &&& all[1] is CreateTextureView
            &&& draws_in_order(all, 2, n)
            &&& all[2 * n + 5] is QueryCapabilities
            &&& progress.capabilities is None ==> all.len() == 2 * n + 6
            &&& progress.capabilities is Some ==> {
                &&& all[2 * n + 6] is ConfigureSurface
                &&& all[2 * n + 7] matches Command::CreateShaderModule(module) && module.stage
                    == ShaderStage::Vertex
                &&& all[2 * n + 8] matches Command::CreateShaderModule(module) && module.stage
                    == ShaderStage::Fragment
                &&& all[2 * n + 9] is CreateBindGroupLayout
                &&& all[2 * n + 10] is CreatePipelineLayout
                &&& all[2 * n + 11] is CreateRenderPipeline
                &&& all[2 * n + 12] is CreateBuffer
                &&& all[2 * n + 13] is CreateSampler
                &&& all[2 * n + 14] is CreateBuffer
                &&& all[2 * n + 15] is CreateBindGroup
                &&& !inside ==> all.len() == 2 * n + 16
                &&& inside ==> {
                    &&& all[2 * n + 16] is AcquireSurfaceTexture
                    &&& all[2 * n + 17] is CreateCommandEncoder
                    &&& all[2 * n + 18] is RenderPass
                    &&& all[2 * n + 19] is Submit
                    &&& all[2 * n + 20] is Present
                    &&& all.len() == 2 * n + 21
                }
            }
        }),
{
    lemma_pixels_at(progress);
}

/// A frame that draws a scene onto a surface locks the target. It makes a new one exactly if there
/// is none or one that differs in a side. Then it asks the adapter, sets the surface up, draws
/// into the target and shows it.
pub proof fn law_order_of_a_scene_frame<F, P, E>(progress: Progress<F, P, E>)
    requires
        progress.valid(),
        progress.request is Scene,
    ensures
        progress.request matches Request::Scene { size, overrides, .. } && ({
            let all = progress.program();
            let n = overrides as int;
            &&& all[0] is LockTarget
            &&& progress.kept is None ==> all.len() == 1
            &&& progress.kept matches Some(kept) ==> {
                let fits = kept matches Some(found) && found.x == size.x && found.y == size.y;
                let asks = if fits {
                    1int
                } else {
                    4
                };
                &&& !fits ==> {
                    &&& all[1] is CreateTexture
                    &&& all[2] is CreateTextureView
                    &&& all[3] is StoreTarget
                }
                &&& all[asks] is QueryCapabilities
                &&& progress.capabilities is None ==> all.len() == asks + 1
                &&& progress.capabilities is Some ==> {
                    &&& all[asks + 1] is ConfigureSurface
                    &&& draws_in_order(all, asks + 2, n)
                    &&& all[asks + 2 * n + 5] is AcquireSurfaceTexture
                    &&& all[asks + 2 * n + 6] is CreateCommandEncoder
                    &&& all[asks + 2 * n + 7] is Blit
                    &&& all[asks + 2 * n + 8] is Submit
                    &&& all[asks + 2 * n + 9] is Present
                    &&& all.len() == asks + 2 * n + 10
                }
            }
        }),
{
    lemma_scene_at(progress);
}

/// A frame that draws a scene into a texture of its own makes the texture and draws, and that is
/// all.
pub proof fn law_order_of_a_texture_frame<F, P, E>(progress: Progress<F, P, E>)
    requires
        progress.valid(),
        progress.request is Texture,
    ensures
        progress.request matches Request::Texture { overrides, .. } && ({
            let all = progress.program();
            &&& all[0] is CreateTexture
            &&& all[1] is CreateTextureView
            &&& draws_in_order(all, 2, overrides as int)
            &&& all.len() == 2 * overrides + 5
        }),
{
    lemma_texture_at(progress);
}

// Questions and answers.

/// A frame starts with what was asked for, has done nothing and knows nothing, and goes on with
/// its first command.
pub proof fn law_frames_start_with_the_request<F, P, E>(request: Request)
    ensures
        ({
            let start = Progress::<F, P, E>::start(request);
            &&& start.request == request
            &&& start.performed == 0
            &&& start.kept is None
            &&& start.capabilities is None
            &&& start.failure is None
            &&& start.next_command() matches Some(command) && match request {
                Request::Scene { .. } => command is LockTarget,
                _ => command is CreateTexture,
            }
        }),
{
    let start = Progress::<F, P, E>::start(request);
    lemma_start_is_valid::<F, P, E>(request);
    match request {
        Request::ViewModePixels { .. } => lemma_pixels_at(start),
        Request::Scene { .. } => lemma_scene_at(start),
        Request::Texture { .. } => lemma_texture_at(start),
    }
}

/// A frame performs its commands in their order. It is finished once a command has failed, or once
/// all are performed and there is nothing more to ask; until then there is a next command.
pub proof fn law_frames_perform_all_commands<F, P, E>(progress: Progress<F, P, E>)
    requires
        progress.valid(),
    ensures
        progress.next_command() is None <==> progress.is_finished(),
        progress.failure is Some ==> progress.next_command() is None,
        progress.failure is None ==> (progress.next_command() is None <==> progress.performed
            >= progress.program().len()),
        progress.next_command() matches Some(command) ==> command
            == progress.program()[progress.performed as int],
        progress.performed <= progress.program().len(),
        progress.next_command() is None && progress.failure is None ==> match progress.request {
            Request::ViewModePixels { .. } => progress.capabilities is Some,
            Request::Scene { .. } => progress.kept is Some && progress.capabilities is Some,
            Request::Texture { .. } => true,
        },
{
}

/// The target is answered with what it is, the adapter with at least one present mode, and with
/// a format where an artboard is drawn onto a canvas. Drawing a scene and acquiring a texture can
/// fail, and nothing else can. What is finished takes no answer.
pub proof fn law_which_answers_fit<F, P, E>(progress: Progress<F, P, E>, event: Event<F, P, E>)
    requires
        progress.valid(),
    ensures
        progress.failure is Some || progress.performed >= progress.program().len()
            ==> !progress.accepts(event),
        progress.failure is None && progress.performed < progress.program().len() ==> ({
            let command = progress.program()[progress.performed as int];
            progress.accepts(event) <==> match event {
                Event::Completed => !(command is LockTarget) && !(command is QueryCapabilities),
                Event::TargetLocked(_) => command is LockTarget,
                Event::Capabilities(found) => {
                    &&& command is QueryCapabilities
                    &&& found.present_modes@.len() >= 1
                    &&& progress.request is ViewModePixels ==> found.formats@.len() >= 1
                },
                Event::Failed(_) => command is RenderScene || command is AcquireSurfaceTexture,
            }
        }),
{
}

/// An answer counts one command as performed and is remembered as it is; it changes nothing else.
pub proof fn law_answers_are_remembered<F, P, E>(
    progress: Progress<F, P, E>,
    event: Event<F, P, E>,
)
    requires
        progress.valid(),
        progress.accepts(event),
    ensures
        ({
            let after = progress.after(event);
            &&& after.valid()
            &&& after.request == progress.request
            &&& after.performed == progress.performed + 1
            &&& match event {
                Event::TargetLocked(found) => after.kept == Some(found),
                _ => after.kept == progress.kept,
            }
            &&& match event {
                Event::Capabilities(found) => after.capabilities matches Some(known)
                    && known.formats == found.formats@ && known.present_modes
                    == found.present_modes@,
                _ => after.capabilities == progress.capabilities,
            }
            &&& match event {
                Event::Failed(error) => after.failure == Some(error),
                _ => after.failure is None,
            }
        }),
{
    law_frames_only_grow(progress, event);
}

/// A frame returns the error that a command was answered with, which was then the last answer, and
/// no error if there was no such answer.
pub proof fn law_frames_return_the_failure<F, P, E>(request: Request, events: Seq<Event<F, P, E>>)
    requires
        answers(Progress::start(request), events),
    ensures
        ({
            let progress = run(Progress::start(request), events);
            &&& forall|i: int|
                0 <= i < events.len() - 1 ==> !(#[trigger] events[i] is Failed)
            &&& match progress.result() {
                Ok(()) => events.len() == 0 || !(events.last() is Failed),
                Err(error) => events.len() > 0 && events.last() == Event::<F, P, E>::Failed(error),
            }
        }),
    decreases events.len(),
{
    if events.len() > 0 {
        let earlier = events.drop_last();
        law_every_run_is_valid(request, earlier);
        law_frames_return_the_failure(request, earlier);
        let before = run(Progress::start(request), earlier);
        law_answers_are_remembered(before, events.last());
        law_which_answers_fit(before, events.last());
        assert forall|i: int| 0 <= i < events.len() - 1 implies !(
        #[trigger] events[i] is Failed) by {
            assert(events[i] == earlier[i]);
        }
    }
}

/// A frame hands out a texture exactly if it was asked to draw a scene into one, has performed
/// every command and none has failed: whatever the size, the background and the number of entries
/// of the render context.
pub proof fn law_finished_textures_are_handed_out<F, P, E>(progress: Progress<F, P, E>)
    requires
        progress.valid(),
    ensures
        progress.hands_out_texture() <==> (progress.request matches Request::Texture {
            overrides,
            ..
        } && progress.performed == 2 * overrides + 5 && progress.failure is None),
        progress.hands_out_texture() ==> progress.next_command() is None,
        progress.request is Texture && progress.next_command() is None && progress.result() is Ok
            ==> progress.hands_out_texture(),
{
    if progress.request is Texture {
        lemma_texture_at(progress);
    }
}

// What is uploaded.

/// The word that four bytes make up, the lowest first.
pub open spec fn word_from(b0: u8, b1: u8, b2: u8, b3: u8) -> int {
    b0 + 0x100 * b1 + 0x1_0000 * b2 + 0x100_0000 * b3
}

/// Whether `bytes` hold `words` one after the other, each from its lowest byte up, or each from
/// its highest byte down.
pub open spec fn reads_as(bytes: Seq<u8>, words: Seq<u32>) -> bool {
    &&& bytes.len() == 4 * words.len()
    &&& {
        ||| forall|i: int|
            0 <= i < words.len() ==> #[trigger] words[i] == word_from(
                bytes[4 * i],
                bytes[4 * i + 1],
                bytes[4 * i + 2],
                bytes[4 * i + 3],
            )
        ||| forall|i: int|
            0 <= i < words.len() ==> #[trigger] words[i] == word_from(
                bytes[4 * i + 3],
                bytes[4 * i + 2],
                bytes[4 * i + 1],
                bytes[4 * i],
            )
    }
}

proof fn lemma_word(word: u32)
    ensures
        word == word_from(byte_of(word, 0), byte_of(word, 1), byte_of(word, 2), byte_of(word, 3)),
{
    let w = word as int;
    assert(w == w % 0x100 + 0x100 * (w / 0x100 % 0x100) + 0x1_0000 * (w / 0x1_0000 % 0x100)
        + 0x100_0000 * (w / 0x100_0000 % 0x100)) by (nonlinear_arith)
        requires
            0 <= w < 0x1_0000_0000,
    ;
}

/// What is stored as words can be read back as the same words, in their order.
pub proof fn law_stored_words_can_be_read_back(words: Seq<u32>, bytes: Seq<u8>)
    requires
        stored_words(words, bytes),
    ensures
        reads_as(bytes, words),
{
    assert forall|i: int| 0 <= i < words.len() implies #[trigger] words[i] == word_from(
        byte_of(words[i], 0),
        byte_of(words[i], 1),
        byte_of(words[i], 2),
        byte_of(words[i], 3),
    ) by {
        lemma_word(words[i]);
    }
    assert forall|i: int, k: int|
        0 <= i < words.len() && 0 <= k < 4 implies #[trigger] ((4 * i + k) / 4) == i && (4 * i + k)
        % 4 == k by {}
}

/// The bytes of the transform's buffer hold the six entries of the matrix that the transform was
/// made from, in the order in which the matrix lists them.
pub proof fn law_uploaded_transform_is_the_matrix(
    mat: Seq<u32>,
    transform: Transform,
    bytes: Seq<u8>,
)
    requires
        mat.len() == 6,
        transform.transform@[0]@ == seq![mat[0], mat[1], mat[2]],
        transform.transform@[1]@ == seq![mat[3], mat[4], mat[5]],
        stored_words(transform_buffer(transform).contents.words(), bytes),
    ensures
        reads_as(bytes, mat),
        reads_as(bytes, seq![mat[0], mat[1], mat[2], mat[3], mat[4], mat[5]]),
{
    assert(transform_buffer(transform).contents.words() =~= mat);
    assert(seq![mat[0], mat[1], mat[2], mat[3], mat[4], mat[5]] =~= mat);
    law_stored_words_can_be_read_back(mat, bytes);
}

/// The bytes of the vertex buffer hold four corners, each with its horizontal and its vertical
/// component: the first goes from -1 to 1 from each corner to the next, the second from the first
/// two corners to the last two.
pub proof fn law_uploaded_corners_span_the_canvas(bytes: Seq<u8>)
    requires
        stored_words(vertex_buffer().contents.words(), bytes),
    ensures
        reads_as(
            bytes,
            Seq::new(
                8,
                |i: int|
                    if i % 2 == 0 && i / 2 % 2 == 0 || i % 2 == 1 && i < 4 {
                        0xbf80_0000u32
                    } else {
                        0x3f80_0000u32
                    },
            ),
        ),
{
    let corners = Seq::new(
        8,
        |i: int|
            if i % 2 == 0 && i / 2 % 2 == 0 || i % 2 == 1 && i < 4 {
                0xbf80_0000u32
            } else {
                0x3f80_0000u32
            },
    );
    assert(vertex_buffer().contents.words() =~= corners);
    law_stored_words_can_be_read_back(corners, bytes);
}

/// The unsigned reading of a number differs from it by a multiple of two to the power of 32, and
/// not at all from one that is not negative.
pub proof fn law_unsigned_reading_keeps_the_bits(x: i32)
    ensures
        (unsigned_reading(x) - x) % 0x1_0000_0000 == 0,
        x >= 0 ==> unsigned_reading(x) == x,
{
}

// What is made before the first frame.

/// The surface of a window is filed under the window's own number and holds what was made for it,
/// so that two windows never share one. Its blitter writes the one format of the library.
pub proof fn law_surfaces_belong_to_their_windows<S>(
    inner: S,
    window_id: SurfaceId,
    other: S,
    other_id: SurfaceId,
)
    ensures
        unfinished_surface(inner, window_id).window_id.0 == window_id.0,
        unfinished_surface(inner, window_id).inner == inner,
        unfinished_surface(inner, window_id).blitter_format == TextureFormat::Rgba8Unorm,
        unfinished_surface(inner, window_id) == unfinished_surface(other, other_id) <==> window_id
            == other_id && inner == other,
{
}

/// An executor is started on the connection that there is, if there is one. Its renderer is made
/// for the GPU, without a pipeline cache, for every antialiasing method and with one thread.
pub proof fn law_executors_start_on_their_connection<C>(context: Option<C>, given: C)
    ensures
        match started_executor(context) {
            Some(pending) => Some(pending.context) == context && pending == pending_executor(
                pending.context,
            ),
            None => context is None,
        },
        ({
            let pending = pending_executor(given);
            &&& pending.context == given
            &&& !pending.options.pipeline_cache
            &&& !pending.options.use_cpu
            &&& pending.options.antialiasing_support.area
            &&& pending.options.antialiasing_support.msaa8
            &&& pending.options.antialiasing_support.msaa16
            &&& pending.options.num_init_threads == Some(1usize)
        }),
{
}

/// The surface of an application's window takes an answer only to the question that it asks, and
/// goes from the window to the executor, to the surface and to its end. What has ended stays as it
/// is.
pub proof fn law_gpu_surfaces_ask_in_turn<W, X, S, E>(
    state: GpuSurface<W, X, S>,
    window: Option<W>,
    executor: Option<X>,
    surface: Result<S, E>,
)
    ensures
        !(state is AskWindow) ==> state.after_window(window) == state,
        !(state is AskExecutor) ==> state.after_executor(executor) == state,
        !(state is AskSurface) ==> state.after_question() == state && state.question() is None,
        !(state is AwaitSurface) ==> state.after_surface(surface) == state,
        state is AskWindow ==> match state.after_window(window) {
            GpuSurface::AskExecutor { window: asked } => window == Some(asked),
            GpuSurface::Done(ended) => window is None && ended is None,
            _ => false,
        },
        state matches GpuSurface::AskExecutor { window: known } ==> match state.after_executor(
            executor,
        ) {
            GpuSurface::AskSurface { window: w, executor: x } => w == known && executor == Some(x),
            GpuSurface::Done(ended) => executor is None && ended is None,
            _ => false,
        },
        state matches GpuSurface::AskSurface { window: w, executor: x } ==> state.question()
            == Some((w, x)) && state.after_question() is AwaitSurface,
        state is AwaitSurface ==> match state.after_surface(surface) {
            GpuSurface::Done(Some(made)) => surface == Ok::<S, E>(made),
            GpuSurface::Done(None) => surface is Err,
            _ => false,
        },
{
}

} // verus!
