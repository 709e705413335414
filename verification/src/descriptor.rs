use crate::geometry::{unsigned_reading, IVec2, UVec2};
use vstd::prelude::*;

verus! {

/// The pixel layouts that textures of this library choose from.
#[derive(Clone, Copy, Debug, PartialEq, Eq, Structural)]
pub enum TextureFormat {
    Rgba8Unorm,
    Rgba8UnormSrgb,
    Bgra8Unorm,
    Bgra8UnormSrgb,
}

/// The format of every texture that the renderer draws into, and of the surface.
pub const VELLO_SURFACE_FORMAT: TextureFormat = TextureFormat::Rgba8Unorm;

#[derive(Clone, Copy, Debug, PartialEq, Eq, Structural)]
pub enum TextureDimension {
    D1,
    D2,
    D3,
}

/// What a texture may be used for.
#[derive(Clone, Copy, Debug, PartialEq, Eq, Structural)]
pub struct TextureUsages {
    pub copy_src: bool,
    pub copy_dst: bool,
    pub texture_binding: bool,
    pub storage_binding: bool,
    pub render_attachment: bool,
}

#[derive(Clone, Copy, Debug, PartialEq, Eq, Structural)]
pub struct Extent3d {
    pub width: u32,
    pub height: u32,
    pub depth_or_array_layers: u32,
}

/// The formats other than its own in which a texture may be viewed.
#[derive(Clone, Copy, Debug, PartialEq, Eq, Structural)]
pub struct ViewFormats {
    pub rgba8_unorm: bool,
    pub rgba8_unorm_srgb: bool,
    pub bgra8_unorm: bool,
    pub bgra8_unorm_srgb: bool,
}

/// Its own format alone.
pub open spec fn own_format() -> ViewFormats {
    ViewFormats {
        rgba8_unorm: false,
        rgba8_unorm_srgb: false,
        bgra8_unorm: false,
        bgra8_unorm_srgb: false,
    }
}

impl ViewFormats {
    /// Its own format alone.
    pub fn own() -> (r: ViewFormats)
        ensures
            r == own_format(),
    {
        ViewFormats {
            rgba8_unorm: false,
            rgba8_unorm_srgb: false,
            bgra8_unorm: false,
            bgra8_unorm_srgb: false,
        }
    }
}

/// A texture to create.
#[derive(Clone, Copy, Debug, PartialEq, Eq)]
pub struct TextureDescriptor {
    pub label: Option<&'static str>,
    pub size: Extent3d,
    pub mip_level_count: u32,
    pub sample_count: u32,
    pub dimension: TextureDimension,
    pub usage: TextureUsages,
    pub format: TextureFormat,
    pub view_formats: ViewFormats,
}

/// A flat texture of one layer, one mip level and one sample per pixel, in the surface format
/// and viewed in no other.
pub open spec fn flat_texture(
    label: Option<&'static str>,
    width: u32,
    height: u32,
    usage: TextureUsages,
) -> TextureDescriptor {
    TextureDescriptor {
        label,
        size: Extent3d { width, height, depth_or_array_layers: 1 },
        mip_level_count: 1,
        sample_count: 1,
        dimension: TextureDimension::D2,
        usage,
        format: TextureFormat::Rgba8Unorm,
        view_formats: own_format(),
    }
}

/// Written by the renderer as storage and sampled by shaders.
pub open spec fn storage_and_sampling() -> TextureUsages {
    TextureUsages {
        copy_src: false,
        copy_dst: false,
        texture_binding: true,
        storage_binding: true,
        render_attachment: false,
    }
}

/// A side of a texture: at least one pixel.
pub open spec fn at_least_one(side: u32) -> u32 {
    if side == 0 {
        1
    } else {
        side
    }
}

/// The texture that an artboard of `dimensions` is drawn into, pixel for pixel.
pub open spec fn artboard_texture(dimensions: IVec2) -> TextureDescriptor {
    flat_texture(
        Some("artboard texture"),
        unsigned_reading(dimensions.x),
        unsigned_reading(dimensions.y),
        TextureUsages { copy_src: true, ..storage_and_sampling() },
    )
}

/// The texture behind a surface of `size`.
pub open spec fn target_texture(size: UVec2) -> TextureDescriptor {
    flat_texture(None, size.x, size.y, storage_and_sampling())
}

/// The texture that a scene of `size` is handed out in. No side of it is empty.
pub open spec fn output_texture(size: UVec2) -> TextureDescriptor {
    flat_texture(None, at_least_one(size.x), at_least_one(size.y), storage_and_sampling())
}

impl TextureDescriptor {
    fn flat(
        label: Option<&'static str>,
        width: u32,
        height: u32,
        usage: TextureUsages,
    ) -> (r: TextureDescriptor)
        ensures
            r == flat_texture(label, width, height, usage),
    {
        TextureDescriptor {
            label,
            size: Extent3d { width, height, depth_or_array_layers: 1 },
            mip_level_count: 1,
            sample_count: 1,
            dimension: TextureDimension::D2,
            usage,
            format: VELLO_SURFACE_FORMAT,
            view_formats: ViewFormats::own(),
        }
    }

    /// The texture that an artboard is drawn into.
    pub fn artboard(dimensions: IVec2) -> (r: TextureDescriptor)
        ensures
            r == artboard_texture(dimensions),
    {
        let size = dimensions.as_uvec2();
        TextureDescriptor::flat(
            Some("artboard texture"),
            size.x,
            size.y,
            TextureUsages {
                copy_src: true,
                copy_dst: false,
                texture_binding: true,
                storage_binding: true,
                render_attachment: false,
            },
        )
    }

    /// The texture behind a surface of `size`.
    pub fn target(size: UVec2) -> (r: TextureDescriptor)
        ensures
            r == target_texture(size),
    {
        TextureDescriptor::flat(None, size.x, size.y, TextureUsages::storage_and_sampling())
    }

    /// The texture that a scene of `size` is handed out in. A side of zero becomes one.
    pub fn output(size: UVec2) -> (r: TextureDescriptor)
        ensures
            r == output_texture(size),
    {
        let width: u32 = if size.x == 0 { 1 } else { size.x };
        let height: u32 = if size.y == 0 { 1 } else { size.y };
        TextureDescriptor::flat(None, width, height, TextureUsages::storage_and_sampling())
    }
}

impl TextureUsages {
    /// Written by the renderer as storage and sampled by shaders.
    pub fn storage_and_sampling() -> (r: TextureUsages)
        ensures
            r == storage_and_sampling(),
    {
        TextureUsages {
            copy_src: false,
            copy_dst: false,
            texture_binding: true,
            storage_binding: true,
            render_attachment: false,
        }
    }
}

/// Which part of a texture an image is replaced with.
#[derive(Clone, Copy, Debug, PartialEq, Eq, Structural)]
pub enum TextureAspect {
    All,
    StencilOnly,
    DepthOnly,
}

#[derive(Clone, Copy, Debug, PartialEq, Eq, Structural)]
pub struct Origin3d {
    pub x: u32,
    pub y: u32,
    pub z: u32,
}

/// Where in a texture the pixels of an overridden image are taken from.
#[derive(Clone, Copy, Debug, PartialEq, Eq, Structural)]
pub struct TexelCopy {
    pub mip_level: u32,
    pub origin: Origin3d,
    pub aspect: TextureAspect,
}

/// The base level of a texture from its first corner on, with all that a pixel holds.
pub open spec fn whole_texture() -> TexelCopy {
    TexelCopy {
        mip_level: 0,
        origin: Origin3d { x: 0, y: 0, z: 0 },
        aspect: TextureAspect::All,
    }
}

impl TexelCopy {
    /// The base level of a texture from its first corner on.
    pub fn whole() -> (r: TexelCopy)
        ensures
            r == whole_texture(),
    {
        TexelCopy {
            mip_level: 0,
            origin: Origin3d { x: 0, y: 0, z: 0 },
            aspect: TextureAspect::All,
        }
    }
}

/// What an adapter can do with a surface, best first: `F` is the adapter's type of formats and
/// `P` that of present modes.
#[derive(Debug)]
pub struct SurfaceCapabilities<F, P> {
    pub formats: Vec<F>,
    pub present_modes: Vec<P>,
}

/// The lists of a [`SurfaceCapabilities`].
#[verifier::ext_equal]
pub struct Capabilities<F, P> {
    pub formats: Seq<F>,
    pub present_modes: Seq<P>,
}

impl<F, P> View for SurfaceCapabilities<F, P> {
    type V = Capabilities<F, P>;

    open spec fn view(&self) -> Capabilities<F, P> {
        Capabilities { formats: self.formats@, present_modes: self.present_modes@ }
    }
}

#[derive(Clone, Copy, Debug, PartialEq, Eq, Structural)]
pub enum CompositeAlphaMode {
    Auto,
    Opaque,
    PreMultiplied,
    PostMultiplied,
    Inherit,
}

/// How a surface is set up for a frame.
#[derive(Debug, PartialEq, Eq)]
pub struct SurfaceConfiguration<P> {
    pub usage: TextureUsages,
    pub format: TextureFormat,
    pub width: u32,
    pub height: u32,
    pub present_mode: P,
    pub alpha_mode: CompositeAlphaMode,
    pub view_formats: ViewFormats,
    pub desired_maximum_frame_latency: u32,
}

/// An opaque surface of `size` that can be drawn into and written as storage, and copied into
/// where `copy_dst` says so. It is viewed in its own format alone. At most two frames are under
/// way.
pub open spec fn surface_configuration<P>(
    size: UVec2,
    present_mode: P,
    copy_dst: bool,
) -> SurfaceConfiguration<P> {
    SurfaceConfiguration {
        usage: TextureUsages {
            copy_src: false,
            copy_dst,
            texture_binding: false,
            storage_binding: true,
            render_attachment: true,
        },
        format: TextureFormat::Rgba8Unorm,
        width: size.x,
        height: size.y,
        present_mode,
        alpha_mode: CompositeAlphaMode::Opaque,
        view_formats: own_format(),
        desired_maximum_frame_latency: 2,
    }
}

impl<P> SurfaceConfiguration<P> {
    /// An opaque surface of `size` with the given present mode.
    pub fn new(size: UVec2, present_mode: P, copy_dst: bool) -> (r: SurfaceConfiguration<P>)
        ensures
            r == surface_configuration(size, present_mode, copy_dst),
    {
        SurfaceConfiguration {
            usage: TextureUsages {
                copy_src: false,
                copy_dst,
                texture_binding: false,
                storage_binding: true,
                render_attachment: true,
            },
            format: VELLO_SURFACE_FORMAT,
            width: size.x,
            height: size.y,
            present_mode,
            alpha_mode: CompositeAlphaMode::Opaque,
            view_formats: ViewFormats::own(),
            desired_maximum_frame_latency: 2,
        }
    }
}

/// A colour with eight bits per channel.
#[derive(Clone, Copy, Debug, PartialEq, Eq, Structural)]
pub struct Rgba8 {
    pub r: u8,
    pub g: u8,
    pub b: u8,
    pub a: u8,
}

#[derive(Clone, Copy, Debug, PartialEq, Eq, Structural)]
pub enum AaConfig {
    Area,
    Msaa8,
    Msaa16,
}

/// How the renderer draws a scene.
#[derive(Clone, Copy, Debug, PartialEq, Eq, Structural)]
pub struct RenderParams {
    pub base_color: Rgba8,
    pub width: u32,
    pub height: u32,
    pub antialiasing_method: AaConfig,
}

/// Sixteen samples per pixel over `background` as it is.
pub open spec fn params_over(size: UVec2, background: Rgba8) -> RenderParams {
    RenderParams {
        base_color: background,
        width: size.x,
        height: size.y,
        antialiasing_method: AaConfig::Msaa16,
    }
}

/// Sixteen samples per pixel over `background` without its transparency.
pub open spec fn params_over_opaque(size: UVec2, background: Rgba8) -> RenderParams {
    params_over(size, Rgba8 { a: 0xff, ..background })
}

impl RenderParams {
    /// Draws over `background` as it is.
    pub fn over(size: UVec2, background: Rgba8) -> (r: RenderParams)
        ensures
            r == params_over(size, background),
    {
        RenderParams {
            base_color: background,
            width: size.x,
            height: size.y,
            antialiasing_method: AaConfig::Msaa16,
        }
    }

    /// Draws over `background` made opaque: what is shown on a surface then needs no
    /// premultiplied alpha, which a transparent canvas would ask for.
    pub fn over_opaque(size: UVec2, background: Rgba8) -> (r: RenderParams)
        ensures
            r == params_over_opaque(size, background),
    {
        RenderParams::over(
            size,
            Rgba8 { r: background.r, g: background.g, b: background.b, a: 0xff },
        )
    }
}

/// The antialiasing methods that a renderer is built for.
#[derive(Clone, Copy, Debug, PartialEq, Eq, Structural)]
pub struct AaSupport {
    pub area: bool,
    pub msaa8: bool,
    pub msaa16: bool,
}

/// Calls `vello::AaSupport::all`, which switches each of the three methods on.
#[verifier::external_body]
fn all_antialiasing() -> (r: AaSupport)
    ensures
        r.area,
        r.msaa8,
        r.msaa16,
{
    let all = vello::AaSupport::all();
    AaSupport { area: all.area, msaa8: all.msaa8, msaa16: all.msaa16 }
}

/// How a renderer is made.
#[derive(Clone, Copy, Debug, PartialEq, Eq)]
pub struct RendererOptions {
    /// Whether the renderer looks up its pipelines in a cache.
    pub pipeline_cache: bool,
    pub use_cpu: bool,
    pub antialiasing_support: AaSupport,
    pub num_init_threads: Option<usize>,
}

/// On the GPU, without a pipeline cache, with every antialiasing method, set up by a single
/// thread.
pub open spec fn renderer_options() -> RendererOptions {
    RendererOptions {
        pipeline_cache: false,
        use_cpu: false,
        antialiasing_support: AaSupport { area: true, msaa8: true, msaa16: true },
        num_init_threads: Some(1),
    }
}

impl RendererOptions {
    /// The options of every renderer of this library.
    pub fn vello() -> (r: RendererOptions)
        ensures
            r == renderer_options(),
    {
        RendererOptions {
            pipeline_cache: false,
            use_cpu: false,
            antialiasing_support: all_antialiasing(),
            num_init_threads: Some(1),
        }
    }
}

} // verus!
