use wgpu_executor::descriptor::{AaSupport, RendererOptions, TextureFormat};
use wgpu_executor::executor::{create_gpu_surface, GpuSurface, PendingExecutor, WgpuExecutor};
use wgpu_executor::geometry::UVec2;
use wgpu_executor::pipeline::{
    AddressMode, BindGroup, BindGroupLayout, BindGroupLayoutEntry, BindingType, BufferContents,
    BufferDescriptor, BufferUsages, FilterMode, FrontFace, LoadOp, PolygonMode, PrimitiveState,
    PrimitiveTopology, RenderPass, RenderPipeline, SamplerDescriptor, ShaderModule, ShaderStage,
    TextureViewDimension, Transform, VertexFormat, VertexStepMode, MINUS_ONE, ONE, THIRTY_TWO,
};
use wgpu_executor::surface::{SurfaceHandle, SurfaceId, TargetTexture, UnfinishedSurface};

type Executor = WgpuExecutor<&'static str, u8>;

fn executor() -> Executor {
    Executor::with_context("gpu").finish::<u8, ()>(Ok(9)).unwrap()
}

#[test]
fn renderer_is_made_with_every_antialiasing_method() {
    let options = RendererOptions {
        pipeline_cache: false,
        use_cpu: false,
        antialiasing_support: AaSupport {
            area: true,
            msaa8: true,
            msaa16: true,
        },
        num_init_threads: Some(1),
    };
    assert_eq!(
        Executor::with_context("gpu"),
        PendingExecutor {
            context: "gpu",
            options
        }
    );
    assert_eq!(
        Executor::new(Some("gpu")),
        Some(PendingExecutor {
            context: "gpu",
            options
        })
    );
    let all = vello::AaSupport::all();
    assert_eq!(
        (all.area, all.msaa8, all.msaa16),
        (
            options.antialiasing_support.area,
            options.antialiasing_support.msaa8,
            options.antialiasing_support.msaa16
        )
    );
}

#[test]
fn no_executor_without_a_context_or_a_renderer() {
    assert_eq!(Executor::new(None), None);
    assert!(Executor::with_context("gpu")
        .finish::<u8, &str>(Err("no adapter"))
        .is_none());
    let executor = executor();
    assert_eq!(executor.context, "gpu");
    assert_eq!(*executor.context(), "gpu");
    assert_eq!(*executor.vello_renderer(), 9);
}

#[test]
fn surface_of_a_window_starts_without_a_target() {
    let window = SurfaceHandle {
        window_id: SurfaceId(17),
        surface: "window",
    };
    let (target, pending) = executor().create_surface(window);
    assert_eq!(target, "window");
    let unfinished = pending.created::<&str, ()>(Ok("surface")).unwrap();
    assert_eq!(
        unfinished,
        UnfinishedSurface {
            inner: "surface",
            window_id: SurfaceId(17),
            blitter_format: TextureFormat::Rgba8Unorm,
        }
    );
    assert_eq!(
        unfinished,
        executor().create_surface_inner("surface", SurfaceId(17))
    );
    let handle: SurfaceHandle<wgpu_executor::surface::Surface<&str, u8, &str>> =
        unfinished.finish("blitter");
    assert_eq!(handle.window_id, SurfaceId(17));
    assert_eq!(handle.surface.inner, "surface");
    assert_eq!(handle.surface.target_texture, None);
    assert_eq!(handle.surface.blitter, "blitter");
}

#[test]
fn surface_that_cannot_be_made_is_an_error() {
    let window = SurfaceHandle {
        window_id: SurfaceId(1),
        surface: "window",
    };
    let (_, pending) = executor().create_surface(window);
    assert_eq!(pending.created::<&str, &str>(Err("lost")), Err("lost"));
}

#[test]
fn target_texture_keeps_its_view_and_size() {
    let target = TargetTexture::new('v', UVec2 { x: 3, y: 4 });
    assert_eq!(*target.texture_view(), 'v');
    assert_eq!(target.size(), UVec2 { x: 3, y: 4 });
}

#[test]
fn gpu_surface_needs_every_part() {
    type Step = GpuSurface<char, u8, &'static str>;
    let none: Step = create_gpu_surface(false);
    assert_eq!(none, GpuSurface::Done(None));
    let start = || -> Step { create_gpu_surface(true) };
    assert_eq!(start(), GpuSurface::AskWindow);
    assert_eq!(start().with_window(None), GpuSurface::Done(None));
    let with_window = || start().with_window(Some('w'));
    assert_eq!(with_window(), GpuSurface::AskExecutor { window: 'w' });
    assert_eq!(with_window().with_executor(None), GpuSurface::Done(None));
    let with_executor = || with_window().with_executor(Some(5));
    assert_eq!(
        with_executor(),
        GpuSurface::AskSurface {
            window: 'w',
            executor: 5
        }
    );
    let (asked, question) = with_executor().ask_surface();
    assert_eq!(question, Some(('w', 5)));
    assert_eq!(asked, GpuSurface::AwaitSurface);
    assert_eq!(asked.with_surface::<()>(Err(())), GpuSurface::Done(None));
    assert_eq!(
        with_executor().ask_surface().0.with_surface::<()>(Ok("surface")),
        GpuSurface::Done(Some("surface"))
    );
    // What has ended stays as it is.
    assert_eq!(none.with_window(Some('w')), GpuSurface::Done(None));
}

#[test]
fn gpu_surface_takes_no_answer_before_its_question() {
    type Step = GpuSurface<char, u8, &'static str>;
    let start = || -> Step { create_gpu_surface(true) };
    assert_eq!(start().ask_surface(), (GpuSurface::AskWindow, None));
    assert_eq!(start().with_surface::<()>(Ok("surface")), GpuSurface::AskWindow);
    assert_eq!(
        start().with_window(Some('w')).with_surface::<()>(Ok("surface")),
        GpuSurface::AskExecutor { window: 'w' }
    );
    let asking = start().with_window(Some('w')).with_executor(Some(5));
    assert_eq!(
        asking.with_surface::<()>(Err(())),
        GpuSurface::AskSurface {
            window: 'w',
            executor: 5
        }
    );
    let asked = start().with_window(Some('w')).with_executor(Some(5)).ask_surface().0;
    assert_eq!(asked.ask_surface(), (GpuSurface::AwaitSurface, None));
}

#[test]
fn corners_are_those_of_clip_space() {
    assert_eq!(ONE, 1.0f32.to_bits());
    assert_eq!(MINUS_ONE, (-1.0f32).to_bits());
    let corners: [[f32; 2]; 4] = [[-1.0, -1.0], [1.0, -1.0], [-1.0, 1.0], [1.0, 1.0]];
    let expected: Vec<u8> = bytemuck::cast_slice::<[f32; 2], u8>(&corners).to_vec();
    let buffer = BufferDescriptor::vertices();
    assert_eq!(buffer.contents.bytes(), expected);
    assert_eq!(buffer.label, "Vertex Buffer");
    assert_eq!(
        buffer.usage,
        BufferUsages {
            copy_dst: false,
            vertex: true,
            uniform: false
        }
    );
    let pipeline = RenderPipeline::canvas('f');
    let pass = RenderPass::canvas();
    assert_eq!(
        expected.len() as u64,
        pipeline.vertex_buffer.array_stride * (pass.end_vertex - pass.first_vertex) as u64
    );
}

#[test]
fn transform_is_stored_column_by_column() {
    let entries: [f32; 6] = [1.5, 0.0, -0.0, 2.25, 100.0, f32::MIN_POSITIVE];
    let transform = Transform::from_cols(entries.map(f32::to_bits));
    assert_eq!(
        transform.transform,
        [
            [1.5f32.to_bits(), 0, 0x8000_0000],
            [2.25f32.to_bits(), 100.0f32.to_bits(), 0x0080_0000]
        ]
    );
    let rows: [[f32; 3]; 2] = [
        [entries[0], entries[1], entries[2]],
        [entries[3], entries[4], entries[5]],
    ];
    let buffer = BufferDescriptor::transform(transform);
    assert_eq!(
        buffer.contents.bytes(),
        bytemuck::cast_slice::<[f32; 3], u8>(&rows).to_vec()
    );
    assert_eq!(buffer.label, "Affine transform buffer");
    assert_eq!(
        buffer.usage,
        BufferUsages {
            copy_dst: true,
            vertex: false,
            uniform: true
        }
    );
}

#[test]
fn words_are_stored_in_the_byte_order_of_the_machine() {
    let words = [0x0102_0304, 0x1122_3344, 0, u32::MAX, 1, 0x8000_0000];
    let expected: Vec<u8> = words.iter().flat_map(|w: &u32| w.to_ne_bytes()).collect();
    let contents = BufferContents::Transform(Transform::from_cols(words));
    assert_eq!(contents.bytes(), expected);
}

#[test]
fn bindings_of_the_canvas_pipeline() {
    let layout = BindGroupLayout::canvas();
    assert_eq!(
        layout.affine_transformation,
        BindGroupLayoutEntry {
            binding: 0,
            visibility: ShaderStage::Vertex,
            ty: BindingType::Uniform {
                has_dynamic_offset: false,
                min_binding_size: None,
            },
            count: None,
        }
    );
    assert_eq!(
        layout.artboard_texture,
        BindGroupLayoutEntry {
            binding: 1,
            visibility: ShaderStage::Fragment,
            ty: BindingType::Texture {
                multisampled: false,
                view_dimension: TextureViewDimension::D2,
                filterable: true,
            },
            count: None,
        }
    );
    assert_eq!(
        layout.linear_sampler,
        BindGroupLayoutEntry {
            binding: 2,
            visibility: ShaderStage::Fragment,
            ty: BindingType::Sampler { filtering: true },
            count: None,
        }
    );
    let group = BindGroup::canvas();
    assert_eq!(group.label, "Bind Group");
    assert_eq!(group.transform_buffer, layout.affine_transformation.binding);
    assert_eq!(group.artboard_view, layout.artboard_texture.binding);
    assert_eq!(group.linear_sampler, layout.linear_sampler.binding);
}

#[test]
fn canvas_pipeline_and_pass() {
    let pipeline = RenderPipeline::canvas('f');
    assert_eq!(pipeline.label, "Artboard to Canvas Pipeline");
    assert_eq!(pipeline.vertex_entry_point, "vs_main");
    assert_eq!(pipeline.fragment_entry_point, "fs_main");
    assert_eq!(pipeline.vertex_buffer.step_mode, VertexStepMode::Vertex);
    assert_eq!(pipeline.vertex_buffer.format, VertexFormat::Float32x2);
    assert_eq!(pipeline.vertex_buffer.offset, 0);
    assert_eq!(pipeline.vertex_buffer.shader_location, 0);
    assert_eq!(pipeline.target.format, 'f');
    assert!(pipeline.target.write_red && pipeline.target.write_green);
    assert!(pipeline.target.write_blue && pipeline.target.write_alpha);
    assert_eq!(pipeline.target.blend, None);
    assert_eq!(pipeline.depth_test, None);
    assert_eq!(pipeline.multiview, None);
    assert!(!pipeline.cached);
    let pass = RenderPass::canvas();
    assert_eq!(pass.load, LoadOp::ClearTransparent);
    assert!(pass.store);
    assert_eq!((pass.first_vertex, pass.end_vertex), (0, 4));
    assert_eq!((pass.first_instance, pass.end_instance), (0, 1));
    assert_eq!((pass.bind_group_index, pass.vertex_buffer_slot), (0, 0));
}

#[test]
fn canvas_pipeline_draws_single_samples_of_triangles() {
    let pipeline = RenderPipeline::canvas('f');
    assert_eq!(
        pipeline.primitive,
        PrimitiveState {
            topology: PrimitiveTopology::TriangleList,
            strip_index_format: None,
            front_face: FrontFace::Ccw,
            cull_mode: None,
            unclipped_depth: false,
            polygon_mode: PolygonMode::Fill,
            conservative: false,
        }
    );
    assert_eq!(
        wgpu::PrimitiveState::default(),
        wgpu::PrimitiveState {
            topology: wgpu::PrimitiveTopology::TriangleList,
            strip_index_format: None,
            front_face: wgpu::FrontFace::Ccw,
            cull_mode: None,
            unclipped_depth: false,
            polygon_mode: wgpu::PolygonMode::Fill,
            conservative: false,
        }
    );
    let default = wgpu::MultisampleState::default();
    assert_eq!(pipeline.multisample.count, default.count);
    assert_eq!(pipeline.multisample.mask, default.mask);
    assert_eq!(
        pipeline.multisample.alpha_to_coverage_enabled,
        default.alpha_to_coverage_enabled
    );
    assert_eq!((default.count, default.mask), (1, u64::MAX));
    assert_eq!(
        pipeline.zero_initialize_workgroup_memory,
        wgpu::PipelineCompilationOptions::default().zero_initialize_workgroup_memory
    );
}

#[test]
fn sampler_blends_and_clamps() {
    let sampler = SamplerDescriptor::linear();
    assert_eq!(sampler.address_mode_u, AddressMode::ClampToEdge);
    assert_eq!(sampler.address_mode_v, AddressMode::ClampToEdge);
    assert_eq!(sampler.address_mode_w, AddressMode::ClampToEdge);
    assert_eq!(sampler.mag_filter, FilterMode::Linear);
    assert_eq!(sampler.min_filter, FilterMode::Linear);
    assert_eq!(sampler.mipmap_filter, FilterMode::Nearest);
    let default = wgpu::SamplerDescriptor::default();
    assert_eq!(sampler.label, default.label);
    assert_eq!(sampler.lod_min_clamp, default.lod_min_clamp.to_bits());
    assert_eq!(sampler.lod_max_clamp, default.lod_max_clamp.to_bits());
    assert_eq!(sampler.lod_max_clamp, THIRTY_TWO);
    assert_eq!(sampler.anisotropy_clamp, default.anisotropy_clamp);
    assert_eq!((sampler.compare, default.compare), (None, None));
    assert_eq!((sampler.border_color, default.border_color), (None, None));
}

#[test]
fn shaders_have_their_entry_points() {
    let vertex = ShaderModule::of(ShaderStage::Vertex);
    assert_eq!(vertex.label, "Transform Vertex");
    assert!(vertex.source.contains("fn vs_main(@location(0) position: vec2<f32>)"));
    assert!(vertex.source.contains("affine_transform * vec3<f32>(position, 1.0)"));
    let fragment = ShaderModule::of(ShaderStage::Fragment);
    assert_eq!(fragment.label, "Downscale Fragment");
    assert!(fragment.source.contains("fn fs_main(@location(0) uv: vec2<f32>)"));
    assert!(fragment.source.contains("textureSample(artboard_texture, linear_sampler, uv)"));
}
