use crate::geometry::UVec2;
use crate::upload::{cast_words, stored_words};
use vstd::prelude::*;

verus! {

/// The vertex stage: moves a corner of the canvas by the affine transform and hands on where in
/// the artboard it lies.
pub const VERTEX_SHADER: &'static str = r#"
				@group(0) @binding(0) var<uniform> affine_transform: mat2x3<f32>;

				struct VertexOutput {
					@builtin(position) clip_position: vec4<f32>,
					@location(0) uv: vec2<f32>,
				}

				@vertex
				fn vs_main(@location(0) position: vec2<f32>) -> VertexOutput {
					var out: VertexOutput;
					let transformed = affine_transform * vec3<f32>(position, 1.0);
					out.clip_position = vec4<f32>(transformed, 0.0, 1.0);
					out.uv = (position + 1.0) * 0.5;
					return out
				}
				"#;

/// The fragment stage: samples the artboard.
pub const FRAGMENT_SHADER: &'static str = r#"
				@group(0) @binding(0) var artboard_texture: texture_2d<f32>;
				@group(0) @binding(1) var linear_sampler: sampler;

				@fragment
				fn fs_main(@location(0) uv: vec2<f32>) -> @location(0) vec4<f32> {
					return textureSample(artboard_texture, linear_sampler, uv);
				}
			"#;

#[derive(Clone, Copy, Debug, PartialEq, Eq, Structural)]
pub enum ShaderStage {
    Vertex,
    Fragment,
}

#[derive(Clone, Copy, Debug, PartialEq, Eq)]
pub struct ShaderModule {
    pub stage: ShaderStage,
    pub label: &'static str,
    pub source: &'static str,
}

/// The module of a stage.
pub open spec fn shader_module(stage: ShaderStage) -> ShaderModule {
    match stage {
        ShaderStage::Vertex => ShaderModule {
            stage,
            label: "Transform Vertex",
            source: VERTEX_SHADER,
        },
        ShaderStage::Fragment => ShaderModule {
            stage,
            label: "Downscale Fragment",
            source: FRAGMENT_SHADER,
        },
    }
}

impl ShaderModule {
    /// The module of a stage.
    pub fn of(stage: ShaderStage) -> (r: ShaderModule)
        ensures
            r == shader_module(stage),
    {
        match stage {
            ShaderStage::Vertex => ShaderModule {
                stage,
                label: "Transform Vertex",
                source: VERTEX_SHADER,
            },
            ShaderStage::Fragment => ShaderModule {
                stage,
                label: "Downscale Fragment",
                source: FRAGMENT_SHADER,
            },
        }
    }
}

#[derive(Clone, Copy, Debug, PartialEq, Eq, Structural)]
pub enum TextureViewDimension {
    D1,
    D2,
    D2Array,
    Cube,
    CubeArray,
    D3,
}

/// What a binding holds.
#[derive(Clone, Copy, Debug, PartialEq, Eq)]
pub enum BindingType {
    /// A uniform buffer, of any size where none is asked for.
    Uniform { has_dynamic_offset: bool, min_binding_size: Option<u64> },
    /// A texture of floating-point samples.
    Texture { multisampled: bool, view_dimension: TextureViewDimension, filterable: bool },
    Sampler { filtering: bool },
}

/// One binding of the group, which one stage sees: a single resource where there is no `count`.
#[derive(Clone, Copy, Debug, PartialEq, Eq)]
pub struct BindGroupLayoutEntry {
    pub binding: u32,
    pub visibility: ShaderStage,
    pub ty: BindingType,
    pub count: Option<u32>,
}

/// The bindings of the group, in the order in which they are listed.
#[derive(Clone, Copy, Debug, PartialEq, Eq)]
pub struct BindGroupLayout {
    pub affine_transformation: BindGroupLayoutEntry,
    pub artboard_texture: BindGroupLayoutEntry,
    pub linear_sampler: BindGroupLayoutEntry,
}

/// The transform for the vertex stage, then the artboard and its sampler for the fragment stage.
pub open spec fn canvas_bindings() -> BindGroupLayout {
    BindGroupLayout {
        affine_transformation: BindGroupLayoutEntry {
            binding: 0,
            visibility: ShaderStage::Vertex,
            ty: BindingType::Uniform { has_dynamic_offset: false, min_binding_size: None },
            count: None,
        },
        artboard_texture: BindGroupLayoutEntry {
            binding: 1,
            visibility: ShaderStage::Fragment,
            ty: BindingType::Texture {
                multisampled: false,
                view_dimension: TextureViewDimension::D2,
                filterable: true,
            },
            count: None,
        },
        linear_sampler: BindGroupLayoutEntry {
            binding: 2,
            visibility: ShaderStage::Fragment,
            ty: BindingType::Sampler { filtering: true },
            count: None,
        },
    }
}

impl BindGroupLayout {
    /// The bindings of the pipeline that draws an artboard onto a canvas.
    pub fn canvas() -> (r: BindGroupLayout)
        ensures
            r == canvas_bindings(),
    {
        BindGroupLayout {
            affine_transformation: BindGroupLayoutEntry {
                binding: 0,
                visibility: ShaderStage::Vertex,
                ty: BindingType::Uniform { has_dynamic_offset: false, min_binding_size: None },
                count: None,
            },
            artboard_texture: BindGroupLayoutEntry {
                binding: 1,
                visibility: ShaderStage::Fragment,
                ty: BindingType::Texture {
                    multisampled: false,
                    view_dimension: TextureViewDimension::D2,
                    filterable: true,
                },
                count: None,
            },
            linear_sampler: BindGroupLayoutEntry {
                binding: 2,
                visibility: ShaderStage::Fragment,
                ty: BindingType::Sampler { filtering: true },
                count: None,
            },
        }
    }
}

#[derive(Clone, Copy, Debug, PartialEq, Eq, Structural)]
pub enum VertexStepMode {
    Vertex,
    Instance,
}

#[derive(Clone, Copy, Debug, PartialEq, Eq, Structural)]
pub enum VertexFormat {
    Float32,
    Float32x2,
    Float32x3,
    Float32x4,
}

/// The layout of a vertex buffer whose vertices have one attribute.
#[derive(Clone, Copy, Debug, PartialEq, Eq, Structural)]
pub struct VertexBufferLayout {
    pub array_stride: u64,
    pub step_mode: VertexStepMode,
    pub offset: u64,
    pub shader_location: u32,
    pub format: VertexFormat,
}

/// How vertices make up primitives.
#[derive(Clone, Copy, Debug, PartialEq, Eq, Structural)]
pub enum PrimitiveTopology {
    PointList,
    LineList,
    LineStrip,
    TriangleList,
    TriangleStrip,
}

#[derive(Clone, Copy, Debug, PartialEq, Eq, Structural)]
pub enum IndexFormat {
    Uint16,
    Uint32,
}

/// The direction in which the corners of a front face run.
#[derive(Clone, Copy, Debug, PartialEq, Eq, Structural)]
pub enum FrontFace {
    Ccw,
    Cw,
}

#[derive(Clone, Copy, Debug, PartialEq, Eq, Structural)]
pub enum Face {
    Front,
    Back,
}

#[derive(Clone, Copy, Debug, PartialEq, Eq, Structural)]
pub enum PolygonMode {
    Fill,
    Line,
    Point,
}

/// How primitives are put together and drawn.
#[derive(Clone, Copy, Debug, PartialEq, Eq)]
pub struct PrimitiveState {
    pub topology: PrimitiveTopology,
    pub strip_index_format: Option<IndexFormat>,
    pub front_face: FrontFace,
    pub cull_mode: Option<Face>,
    pub unclipped_depth: bool,
    pub polygon_mode: PolygonMode,
    pub conservative: bool,
}

/// A triangle from each three vertices in turn, filled and drawn whichever way it faces.
pub open spec fn filled_triangles() -> PrimitiveState {
    PrimitiveState {
        topology: PrimitiveTopology::TriangleList,
        strip_index_format: None,
        front_face: FrontFace::Ccw,
        cull_mode: None,
        unclipped_depth: false,
        polygon_mode: PolygonMode::Fill,
        conservative: false,
    }
}

impl PrimitiveState {
    /// Filled triangles.
    pub fn triangles() -> (r: PrimitiveState)
        ensures
            r == filled_triangles(),
    {
        PrimitiveState {
            topology: PrimitiveTopology::TriangleList,
            strip_index_format: None,
            front_face: FrontFace::Ccw,
            cull_mode: None,
            unclipped_depth: false,
            polygon_mode: PolygonMode::Fill,
            conservative: false,
        }
    }
}

/// How many samples a pixel has, and which of them are written.
#[derive(Clone, Copy, Debug, PartialEq, Eq, Structural)]
pub struct MultisampleState {
    pub count: u32,
    pub mask: u64,
    pub alpha_to_coverage_enabled: bool,
}

/// One sample per pixel, which is written.
pub open spec fn single_sample() -> MultisampleState {
    MultisampleState { count: 1, mask: u64::MAX, alpha_to_coverage_enabled: false }
}

impl MultisampleState {
    /// One sample per pixel.
    pub fn single() -> (r: MultisampleState)
        ensures
            r == single_sample(),
    {
        MultisampleState { count: 1, mask: u64::MAX, alpha_to_coverage_enabled: false }
    }
}

/// When one number passes a test against another.
#[derive(Clone, Copy, Debug, PartialEq, Eq, Structural)]
pub enum CompareFunction {
    Never,
    Less,
    Equal,
    LessEqual,
    Greater,
    NotEqual,
    GreaterEqual,
    Always,
}

#[derive(Clone, Copy, Debug, PartialEq, Eq, Structural)]
pub enum DepthFormat {
    Depth16Unorm,
    Depth24Plus,
    Depth32Float,
}

/// A test of the depth of what is drawn against what is there.
#[derive(Clone, Copy, Debug, PartialEq, Eq, Structural)]
pub struct DepthTest {
    pub format: DepthFormat,
    pub depth_write_enabled: bool,
    pub depth_compare: CompareFunction,
}

/// How what is drawn is put together with what is there.
#[derive(Clone, Copy, Debug, PartialEq, Eq, Structural)]
pub enum BlendState {
    Replace,
    AlphaBlending,
    PremultipliedAlphaBlending,
}

/// What the fragment stage writes: `F` is the type of surface formats.
#[derive(Debug, PartialEq, Eq)]
pub struct ColorTarget<F> {
    pub format: F,
    pub blend: Option<BlendState>,
    pub write_red: bool,
    pub write_green: bool,
    pub write_blue: bool,
    pub write_alpha: bool,
}

/// The pipeline that draws an artboard onto a canvas. No constant of its shaders is overridden.
#[derive(Debug, PartialEq, Eq)]
pub struct RenderPipeline<F> {
    pub label: &'static str,
    pub vertex_entry_point: &'static str,
    pub vertex_buffer: VertexBufferLayout,
    pub fragment_entry_point: &'static str,
    pub target: ColorTarget<F>,
    /// Whether the memory of a workgroup of either stage starts as zeros.
    pub zero_initialize_workgroup_memory: bool,
    pub primitive: PrimitiveState,
    pub depth_test: Option<DepthTest>,
    pub multisample: MultisampleState,
    /// How many layers are drawn at once, where there is more than a single view.
    pub multiview: Option<u32>,
    /// Whether the pipeline is looked up in a cache.
    pub cached: bool,
}

/// Vertices of two floating-point components each, drawn as filled triangles in every channel of
/// a target of `format`, with one sample per pixel that replaces what is there. Depths are not
/// tested, there is a single view, and the pipeline is made anew.
pub open spec fn canvas_pipeline<F>(format: F) -> RenderPipeline<F> {
    RenderPipeline {
        label: "Artboard to Canvas Pipeline",
        vertex_entry_point: "vs_main",
        vertex_buffer: VertexBufferLayout {
            array_stride: 8,
            step_mode: VertexStepMode::Vertex,
            offset: 0,
            shader_location: 0,
            format: VertexFormat::Float32x2,
        },
        fragment_entry_point: "fs_main",
        target: ColorTarget {
            format,
            blend: None,
            write_red: true,
            write_green: true,
            write_blue: true,
            write_alpha: true,
        },
        zero_initialize_workgroup_memory: true,
        primitive: filled_triangles(),
        depth_test: None,
        multisample: single_sample(),
        multiview: None,
        cached: false,
    }
}

impl<F> RenderPipeline<F> {
    /// The pipeline that draws an artboard onto a canvas of `format`.
    pub fn canvas(format: F) -> (r: RenderPipeline<F>)
        ensures
            r == canvas_pipeline(format),
    {
        RenderPipeline {
            label: "Artboard to Canvas Pipeline",
            vertex_entry_point: "vs_main",
            vertex_buffer: VertexBufferLayout {
                array_stride: 8,
                step_mode: VertexStepMode::Vertex,
                offset: 0,
                shader_location: 0,
                format: VertexFormat::Float32x2,
            },
            fragment_entry_point: "fs_main",
            target: ColorTarget {
                format,
                blend: None,
                write_red: true,
                write_green: true,
                write_blue: true,
                write_alpha: true,
            },
            zero_initialize_workgroup_memory: true,
            primitive: PrimitiveState::triangles(),
            depth_test: None,
            multisample: MultisampleState::single(),
            multiview: None,
            cached: false,
        }
    }
}

/// A corner of the canvas: the bit patterns of two single-precision numbers.
#[derive(Clone, Copy, Debug, PartialEq, Eq, Structural)]
pub struct Vertex {
    pub x: u32,
    pub y: u32,
}

/// The bit pattern of the single-precision number 1.
pub const ONE: u32 = 0x3f80_0000;

/// The bit pattern of the single-precision number -1.
pub const MINUS_ONE: u32 = 0xbf80_0000;

/// The corners of the canvas: bottom left, bottom right, top left, top right.
pub open spec fn canvas_corners() -> Seq<Vertex> {
    seq![
        Vertex { x: MINUS_ONE, y: MINUS_ONE },
        Vertex { x: ONE, y: MINUS_ONE },
        Vertex { x: MINUS_ONE, y: ONE },
        Vertex { x: ONE, y: ONE },
    ]
}

/// The components of vertices, one vertex after the other.
pub open spec fn vertex_words(vertices: Seq<Vertex>) -> Seq<u32> {
    Seq::new(
        2 * vertices.len(),
        |i: int|
            if i % 2 == 0 {
                vertices[i / 2].x
            } else {
                vertices[i / 2].y
            },
    )
}

/// The affine transform as the shader reads it: the bit patterns of two columns of three
/// single-precision numbers.
#[derive(Clone, Copy, Debug, PartialEq, Eq)]
pub struct Transform {
    pub transform: [[u32; 3]; 2],
}

impl Transform {
    /// The six numbers in the order in which they are stored.
    pub open spec fn words(self) -> Seq<u32> {
        self.transform@[0]@ + self.transform@[1]@
    }

    /// Splits the six entries of an affine transform, its columns one after the other, into two
    /// runs of three.
    pub fn from_cols(mat: [u32; 6]) -> (r: Transform)
        ensures
            r.transform@[0]@ == seq![mat@[0], mat@[1], mat@[2]],
            r.transform@[1]@ == seq![mat@[3], mat@[4], mat@[5]],
            r.words() == mat@,
    {
        let r = Transform { transform: [[mat[0], mat[1], mat[2]], [mat[3], mat[4], mat[5]]] };
        assert(r.transform@[0]@ =~= seq![mat@[0], mat@[1], mat@[2]]);
        assert(r.transform@[1]@ =~= seq![mat@[3], mat@[4], mat@[5]]);
        assert(r.words() =~= mat@);
        r
    }
}

/// What a buffer is filled with.
#[derive(Clone, Copy, Debug, PartialEq, Eq)]
pub enum BufferContents {
    Transform(Transform),
    /// The corners of the canvas.
    Canvas,
}

impl BufferContents {
    /// The numbers that the buffer is filled with, as bit patterns.
    pub open spec fn words(self) -> Seq<u32> {
        match self {
            BufferContents::Transform(transform) => transform.words(),
            BufferContents::Canvas => vertex_words(canvas_corners()),
        }
    }

    /// The bytes that the buffer is filled with: those of its numbers, in the byte order of the
    /// machine.
    pub fn bytes(&self) -> (r: Vec<u8>)
        ensures
            stored_words(self.words(), r@),
            *self matches BufferContents::Transform(transform) ==> stored_words(
                transform.transform@[0]@ + transform.transform@[1]@,
                r@,
            ),
    {
        match self {
            BufferContents::Transform(transform) => {
                let t = transform.transform;
                let words: [u32; 6] = [t[0][0], t[0][1], t[0][2], t[1][0], t[1][1], t[1][2]];
                assert(words@ =~= transform.words());
                cast_words(&words)
            },
            BufferContents::Canvas => {
                let words: [u32; 8] = [
                    MINUS_ONE, MINUS_ONE, ONE, MINUS_ONE, MINUS_ONE, ONE, ONE, ONE,
                ];
                assert(words@ =~= vertex_words(canvas_corners()));
                cast_words(&words)
            },
        }
    }
}

/// What a buffer may be used for.
#[derive(Clone, Copy, Debug, PartialEq, Eq, Structural)]
pub struct BufferUsages {
    pub copy_dst: bool,
    pub vertex: bool,
    pub uniform: bool,
}

/// A buffer to create and fill.
#[derive(Clone, Copy, Debug, PartialEq, Eq)]
pub struct BufferDescriptor {
    pub label: &'static str,
    pub contents: BufferContents,
    pub usage: BufferUsages,
}

/// A uniform buffer with `transform`, which can be overwritten.
pub open spec fn transform_buffer(transform: Transform) -> BufferDescriptor {
    BufferDescriptor {
        label: "Affine transform buffer",
        contents: BufferContents::Transform(transform),
        usage: BufferUsages { copy_dst: true, vertex: false, uniform: true },
    }
}

/// A vertex buffer with the corners of the canvas.
pub open spec fn vertex_buffer() -> BufferDescriptor {
    BufferDescriptor {
        label: "Vertex Buffer",
        contents: BufferContents::Canvas,
        usage: BufferUsages { copy_dst: false, vertex: true, uniform: false },
    }
}

impl BufferDescriptor {
    /// A uniform buffer with `transform`.
    pub fn transform(transform: Transform) -> (r: BufferDescriptor)
        ensures
            r == transform_buffer(transform),
    {
        BufferDescriptor {
            label: "Affine transform buffer",
            contents: BufferContents::Transform(transform),
            usage: BufferUsages { copy_dst: true, vertex: false, uniform: true },
        }
    }

    /// A vertex buffer with the corners of the canvas.
    pub fn vertices() -> (r: BufferDescriptor)
        ensures
            r == vertex_buffer(),
    {
        BufferDescriptor {
            label: "Vertex Buffer",
            contents: BufferContents::Canvas,
            usage: BufferUsages { copy_dst: false, vertex: true, uniform: false },
        }
    }
}

#[derive(Clone, Copy, Debug, PartialEq, Eq, Structural)]
pub enum AddressMode {
    ClampToEdge,
    Repeat,
    MirrorRepeat,
    ClampToBorder,
}

#[derive(Clone, Copy, Debug, PartialEq, Eq, Structural)]
pub enum FilterMode {
    Nearest,
    Linear,
}

#[derive(Clone, Copy, Debug, PartialEq, Eq, Structural)]
pub enum SamplerBorderColor {
    TransparentBlack,
    OpaqueBlack,
    OpaqueWhite,
    Zero,
}

/// The bit pattern of the single-precision number 32.
pub const THIRTY_TWO: u32 = 0x4200_0000;

/// How a texture is sampled. The bounds on the mip level are bit patterns of single-precision
/// numbers.
#[derive(Clone, Copy, Debug, PartialEq, Eq)]
pub struct SamplerDescriptor {
    pub label: Option<&'static str>,
    pub address_mode_u: AddressMode,
    pub address_mode_v: AddressMode,
    pub address_mode_w: AddressMode,
    pub mag_filter: FilterMode,
    pub min_filter: FilterMode,
    pub mipmap_filter: FilterMode,
    pub lod_min_clamp: u32,
    pub lod_max_clamp: u32,
    pub compare: Option<CompareFunction>,
    pub anisotropy_clamp: u16,
    pub border_color: Option<SamplerBorderColor>,
}

/// Blends neighbouring pixels and repeats the pixels at the edge outside of the texture. Every
/// mip level up to 32 may be used, and nothing is compared.
pub open spec fn linear_sampler() -> SamplerDescriptor {
    SamplerDescriptor {
        label: None,
        address_mode_u: AddressMode::ClampToEdge,
        address_mode_v: AddressMode::ClampToEdge,
        address_mode_w: AddressMode::ClampToEdge,
        mag_filter: FilterMode::Linear,
        min_filter: FilterMode::Linear,
        mipmap_filter: FilterMode::Nearest,
        lod_min_clamp: 0,
        lod_max_clamp: THIRTY_TWO,
        compare: None,
        anisotropy_clamp: 1,
        border_color: None,
    }
}

impl SamplerDescriptor {
    /// Blends neighbouring pixels.
    pub fn linear() -> (r: SamplerDescriptor)
        ensures
            r == linear_sampler(),
    {
        SamplerDescriptor {
            label: None,
            address_mode_u: AddressMode::ClampToEdge,
            address_mode_v: AddressMode::ClampToEdge,
            address_mode_w: AddressMode::ClampToEdge,
            mag_filter: FilterMode::Linear,
            min_filter: FilterMode::Linear,
            mipmap_filter: FilterMode::Nearest,
            lod_min_clamp: 0,
            lod_max_clamp: THIRTY_TWO,
            compare: None,
            anisotropy_clamp: 1,
            border_color: None,
        }
    }
}

/// The binding numbers under which the three resources are put together.
#[derive(Clone, Copy, Debug, PartialEq, Eq)]
pub struct BindGroup {
    pub label: &'static str,
    pub transform_buffer: u32,
    pub artboard_view: u32,
    pub linear_sampler: u32,
}

/// The resources in the order transform, artboard, sampler.
pub open spec fn canvas_bind_group() -> BindGroup {
    BindGroup { label: "Bind Group", transform_buffer: 0, artboard_view: 1, linear_sampler: 2 }
}

impl BindGroup {
    /// The resources of the pipeline that draws an artboard onto a canvas.
    pub fn canvas() -> (r: BindGroup)
        ensures
            r == canvas_bind_group(),
    {
        BindGroup { label: "Bind Group", transform_buffer: 0, artboard_view: 1, linear_sampler: 2 }
    }
}

#[derive(Clone, Copy, Debug, PartialEq, Eq, Structural)]
pub enum LoadOp {
    /// Starts from transparent pixels.
    ClearTransparent,
    /// Starts from what is there.
    Load,
}

/// A pass with one draw and no attachment but the colour target.
#[derive(Clone, Copy, Debug, PartialEq, Eq, Structural)]
pub struct RenderPass {
    pub load: LoadOp,
    pub store: bool,
    pub bind_group_index: u32,
    pub vertex_buffer_slot: u32,
    pub first_vertex: u32,
    pub end_vertex: u32,
    pub first_instance: u32,
    pub end_instance: u32,
}

/// One instance of the four corners, over transparent pixels.
pub open spec fn canvas_pass() -> RenderPass {
    RenderPass {
        load: LoadOp::ClearTransparent,
        store: true,
        bind_group_index: 0,
        vertex_buffer_slot: 0,
        first_vertex: 0,
        end_vertex: 4,
        first_instance: 0,
        end_instance: 1,
    }
}

impl RenderPass {
    /// One instance of the four corners of the canvas.
    pub fn canvas() -> (r: RenderPass)
        ensures
            r == canvas_pass(),
    {
        RenderPass {
            load: LoadOp::ClearTransparent,
            store: true,
            bind_group_index: 0,
            vertex_buffer_slot: 0,
            first_vertex: 0,
            end_vertex: 4,
            first_instance: 0,
            end_instance: 1,
        }
    }
}

/// The part of a canvas that is looked at: the transform from the artboard to the canvas, where
/// it puts the artboard's origin, in whole pixels from zero up, and the canvas's size.
#[derive(Clone, Copy, Debug, PartialEq, Eq)]
pub struct Footprint {
    pub transform: Transform,
    pub translation: UVec2,
    pub resolution: UVec2,
}

impl Footprint {
    /// Whether the origin lies past the right or the lower edge of the canvas.
    pub open spec fn is_past_canvas(self) -> bool {
        self.translation.x >= self.resolution.x || self.translation.y >= self.resolution.y
    }

    /// Whether there is nothing to draw, as the origin lies past the canvas.
    pub fn past_canvas(&self) -> (r: bool)
        ensures
            r == self.is_past_canvas(),
            !r <==> self.translation.x < self.resolution.x && self.translation.y
                < self.resolution.y,
    {
        self.translation.x >= self.resolution.x || self.translation.y >= self.resolution.y
    }
}

} // verus!
