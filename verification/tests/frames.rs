use std::collections::BTreeMap;
use wgpu_executor::command::{Command, Event, RenderTarget};
use wgpu_executor::descriptor::{
    AaConfig, CompositeAlphaMode, Extent3d, Origin3d, RenderParams, Rgba8, SurfaceCapabilities,
    SurfaceConfiguration, TexelCopy, TextureAspect, TextureDescriptor, TextureDimension,
    TextureFormat, TextureUsages, ViewFormats,
};
use wgpu_executor::executor::WgpuExecutor;
use wgpu_executor::geometry::{IVec2, UVec2};
use wgpu_executor::job::RenderJob;
use wgpu_executor::pipeline::{
    BindGroup, BindGroupLayout, BufferDescriptor, Footprint, RenderPass, RenderPipeline,
    SamplerDescriptor, ShaderModule, ShaderStage, Transform,
};
use wgpu_executor::surface::SurfaceId;

type Job = RenderJob<u8, char, String>;
type Step = Command<u8, char>;

const NO_OTHER_FORMAT: ViewFormats = ViewFormats {
    rgba8_unorm: false,
    rgba8_unorm_srgb: false,
    bgra8_unorm: false,
    bgra8_unorm_srgb: false,
};

const BACKGROUND: Rgba8 = Rgba8 { r: 10, g: 20, b: 30, a: 40 };

fn executor() -> WgpuExecutor<(), ()> {
    WgpuExecutor::<(), ()>::with_context(())
        .finish::<(), String>(Ok(()))
        .unwrap()
}

fn capabilities() -> SurfaceCapabilities<u8, char> {
    SurfaceCapabilities {
        formats: vec![7, 8],
        present_modes: vec!['f', 'm'],
    }
}

/// Checks the next command and answers it.
fn step(job: Job, expected: Step, event: Event<u8, char, String>) -> Job {
    assert_eq!(job.next_command(), Some(&expected));
    assert!(job.accepts(&event));
    job.advance(event)
}

fn complete(mut job: Job, expected: Vec<Step>) -> Job {
    for command in expected {
        job = step(job, command, Event::Completed);
    }
    job
}

fn texture(label: Option<&'static str>, width: u32, height: u32, copy_src: bool) -> Step {
    Command::CreateTexture(TextureDescriptor {
        label,
        size: Extent3d {
            width,
            height,
            depth_or_array_layers: 1,
        },
        mip_level_count: 1,
        sample_count: 1,
        dimension: TextureDimension::D2,
        usage: TextureUsages {
            copy_src,
            copy_dst: false,
            texture_binding: true,
            storage_binding: true,
            render_attachment: false,
        },
        format: TextureFormat::Rgba8Unorm,
        view_formats: NO_OTHER_FORMAT,
    })
}

fn render(target: RenderTarget, width: u32, height: u32, alpha: u8) -> Step {
    Command::RenderScene {
        target,
        params: RenderParams {
            base_color: Rgba8 {
                r: 10,
                g: 20,
                b: 30,
                a: alpha,
            },
            width,
            height,
            antialiasing_method: AaConfig::Msaa16,
        },
    }
}

fn install(entry: usize) -> Step {
    Command::OverrideImage {
        entry,
        texture: Some(TexelCopy {
            mip_level: 0,
            origin: Origin3d { x: 0, y: 0, z: 0 },
            aspect: TextureAspect::All,
        }),
    }
}

fn remove(entry: usize) -> Step {
    Command::OverrideImage {
        entry,
        texture: None,
    }
}

fn configure(width: u32, height: u32, copy_dst: bool) -> Step {
    Command::ConfigureSurface(SurfaceConfiguration {
        usage: TextureUsages {
            copy_src: false,
            copy_dst,
            texture_binding: false,
            storage_binding: true,
            render_attachment: true,
        },
        format: TextureFormat::Rgba8Unorm,
        width,
        height,
        present_mode: 'f',
        alpha_mode: CompositeAlphaMode::Opaque,
        view_formats: NO_OTHER_FORMAT,
        desired_maximum_frame_latency: 2,
    })
}

fn size(x: u32, y: u32) -> UVec2 {
    UVec2 { x, y }
}

fn footprint(translation: UVec2, resolution: UVec2) -> Footprint {
    Footprint {
        transform: Transform::from_cols([1, 2, 3, 4, 5, 6]),
        translation,
        resolution,
    }
}

fn blit() -> Vec<Step> {
    vec![
        Command::AcquireSurfaceTexture,
        Command::CreateCommandEncoder {
            label: "Surface Blit",
        },
        Command::Blit,
        Command::Submit,
        Command::Present,
    ]
}

fn scene_until_drawing(kept: Option<UVec2>, overrides: usize) -> Job {
    let job: Job = executor().render_vello_scene(size(640, 480), overrides, BACKGROUND);
    let mut job = step(job, Command::LockTarget, Event::TargetLocked(kept));
    if kept != Some(size(640, 480)) {
        job = complete(
            job,
            vec![
                texture(None, 640, 480, false),
                Command::CreateTextureView,
                Command::StoreTarget(size(640, 480)),
            ],
        );
    }
    let job = step(
        job,
        Command::QueryCapabilities,
        Event::Capabilities(capabilities()),
    );
    complete(job, vec![configure(640, 480, false), Command::LockRenderer])
}

#[test]
fn scene_without_a_kept_target() {
    let job = scene_until_drawing(None, 2);
    let job = complete(job, vec![install(0), install(1)]);
    let job = complete(
        job,
        vec![render(RenderTarget::SurfaceTarget, 640, 480, 0xff)],
    );
    let job = complete(job, vec![remove(0), remove(1), Command::UnlockRenderer]);
    let job = complete(job, blit());
    assert!(job.next_command().is_none());
    assert!(!job.hands_out_texture());
    assert_eq!(job.into_result(), Ok(()));
}

#[test]
fn scene_reuses_a_target_of_its_size() {
    let job = scene_until_drawing(Some(size(640, 480)), 0);
    let job = complete(
        job,
        vec![
            render(RenderTarget::SurfaceTarget, 640, 480, 0xff),
            Command::UnlockRenderer,
        ],
    );
    let job = complete(job, blit());
    assert!(job.next_command().is_none());
    assert_eq!(job.into_result(), Ok(()));
}

#[test]
fn scene_replaces_a_target_of_another_size() {
    for kept in [size(640, 481), size(639, 480), size(480, 640)] {
        let job = scene_until_drawing(Some(kept), 0);
        assert_eq!(
            job.next_command(),
            Some(&render(RenderTarget::SurfaceTarget, 640, 480, 0xff))
        );
    }
}

#[test]
fn failed_drawing_ends_the_frame_with_the_textures_in_place() {
    let job = complete(scene_until_drawing(None, 1), vec![install(0)]);
    let job = step(
        job,
        render(RenderTarget::SurfaceTarget, 640, 480, 0xff),
        Event::Failed("out of memory".to_string()),
    );
    assert!(job.next_command().is_none());
    assert!(!job.accepts(&Event::Completed));
    assert_eq!(job.into_result(), Err("out of memory".to_string()));
}

#[test]
fn failed_acquiring_ends_the_frame() {
    let job = complete(
        scene_until_drawing(None, 0),
        vec![
            render(RenderTarget::SurfaceTarget, 640, 480, 0xff),
            Command::UnlockRenderer,
        ],
    );
    let job = step(
        job,
        Command::AcquireSurfaceTexture,
        Event::Failed("lost".to_string()),
    );
    assert!(job.next_command().is_none());
    assert_eq!(job.into_result(), Err("lost".to_string()));
}

#[test]
fn answers_have_to_fit_the_command() {
    let job: Job = executor().render_vello_scene(size(1, 1), 0, BACKGROUND);
    assert!(!job.accepts(&Event::Completed));
    assert!(!job.accepts(&Event::Failed("no".to_string())));
    assert!(!job.accepts(&Event::Capabilities(capabilities())));
    let job = step(job, Command::LockTarget, Event::TargetLocked(Some(size(1, 1))));
    assert_eq!(job.next_command(), Some(&Command::QueryCapabilities));
    assert!(!job.accepts(&Event::Completed));
    assert!(!job.accepts(&Event::TargetLocked(None)));
    assert!(!job.accepts(&Event::Capabilities(SurfaceCapabilities {
        formats: vec![1],
        present_modes: vec![],
    })));
    // A scene needs no format of the adapter's.
    assert!(job.accepts(&Event::Capabilities(SurfaceCapabilities {
        formats: vec![],
        present_modes: vec!['f'],
    })));
    let job = job.advance(Event::Capabilities(capabilities()));
    assert!(!job.accepts(&Event::Failed("no".to_string())));
}

fn pixels_until_capabilities(footprint: Footprint, dimensions: IVec2) -> Job {
    let job: Job =
        executor().render_vello_scene_view_mode_pixels(dimensions, footprint, 1, BACKGROUND);
    let width = dimensions.x as u32;
    let height = dimensions.y as u32;
    complete(
        job,
        vec![
            texture(Some("artboard texture"), width, height, true),
            Command::CreateTextureView,
            Command::LockRenderer,
            install(0),
            render(RenderTarget::NewTexture, width, height, 0xff),
            remove(0),
            Command::UnlockRenderer,
        ],
    )
}

fn pipeline() -> Vec<Step> {
    vec![
        configure(800, 600, true),
        Command::CreateShaderModule(ShaderModule::of(ShaderStage::Vertex)),
        Command::CreateShaderModule(ShaderModule::of(ShaderStage::Fragment)),
        Command::CreateBindGroupLayout(BindGroupLayout::canvas()),
        Command::CreatePipelineLayout,
        Command::CreateRenderPipeline(RenderPipeline::canvas(7)),
        Command::CreateBuffer(BufferDescriptor::transform(Transform::from_cols([
            1, 2, 3, 4, 5, 6,
        ]))),
        Command::CreateSampler(SamplerDescriptor::linear()),
        Command::CreateBuffer(BufferDescriptor::vertices()),
        Command::CreateBindGroup(BindGroup::canvas()),
    ]
}

#[test]
fn pixels_are_drawn_onto_the_canvas() {
    let dimensions = IVec2 { x: 300, y: 200 };
    let footprint = footprint(size(799, 599), size(800, 600));
    let job = pixels_until_capabilities(footprint, dimensions);
    let job = step(
        job,
        Command::QueryCapabilities,
        Event::Capabilities(capabilities()),
    );
    let job = complete(job, pipeline());
    let job = complete(
        job,
        vec![
            Command::AcquireSurfaceTexture,
            Command::CreateCommandEncoder {
                label: "Surface Blit",
            },
            Command::RenderPass(RenderPass::canvas()),
            Command::Submit,
            Command::Present,
        ],
    );
    assert!(job.next_command().is_none());
    assert_eq!(job.into_result(), Ok(()));
}

#[test]
fn pixels_past_the_canvas_are_not_shown() {
    for translation in [size(800, 0), size(0, 600), size(u32::MAX, u32::MAX)] {
        let dimensions = IVec2 { x: 300, y: 200 };
        let job = pixels_until_capabilities(footprint(translation, size(800, 600)), dimensions);
        let job = step(
            job,
            Command::QueryCapabilities,
            Event::Capabilities(capabilities()),
        );
        let job = complete(job, pipeline());
        assert!(job.next_command().is_none());
        assert_eq!(job.into_result(), Ok(()));
    }
}

#[test]
fn pixels_need_a_format_and_a_present_mode() {
    let job = pixels_until_capabilities(
        footprint(size(0, 0), size(800, 600)),
        IVec2 { x: 300, y: 200 },
    );
    assert!(!job.accepts(&Event::Capabilities(SurfaceCapabilities {
        formats: vec![],
        present_modes: vec!['f'],
    })));
    assert!(!job.accepts(&Event::Capabilities(SurfaceCapabilities {
        formats: vec![7],
        present_modes: vec![],
    })));
    assert!(job.accepts(&Event::Capabilities(capabilities())));
}

#[test]
fn negative_artboard_sides_are_read_without_a_sign() {
    let dimensions = IVec2 { x: -1, y: i32::MIN };
    assert_eq!(dimensions.as_uvec2(), size(u32::MAX, 0x8000_0000));
    let job = pixels_until_capabilities(footprint(size(0, 0), size(800, 600)), dimensions);
    assert_eq!(job.next_command(), Some(&Command::QueryCapabilities));
}

#[test]
fn failed_artboard_ends_the_frame() {
    let job: Job = executor().render_vello_scene_view_mode_pixels(
        IVec2 { x: 3, y: 2 },
        footprint(size(0, 0), size(8, 6)),
        0,
        BACKGROUND,
    );
    let job = complete(
        job,
        vec![
            texture(Some("artboard texture"), 3, 2, true),
            Command::CreateTextureView,
            Command::LockRenderer,
        ],
    );
    let job = step(
        job,
        render(RenderTarget::NewTexture, 3, 2, 0xff),
        Event::Failed("shader".to_string()),
    );
    assert!(job.next_command().is_none());
    assert_eq!(job.into_result(), Err("shader".to_string()));
}

#[test]
fn texture_keeps_the_transparency() {
    let job: Job = executor().render_vello_scene_to_texture(size(64, 32), 1, BACKGROUND);
    let job = complete(
        job,
        vec![
            texture(None, 64, 32, false),
            Command::CreateTextureView,
            Command::LockRenderer,
            install(0),
            render(RenderTarget::NewTexture, 64, 32, 40),
            remove(0),
        ],
    );
    assert!(!job.hands_out_texture());
    let job = complete(job, vec![Command::UnlockRenderer]);
    assert!(job.next_command().is_none());
    assert!(job.hands_out_texture());
    assert_eq!(job.into_result(), Ok(()));
}

#[test]
fn failed_texture_is_not_handed_out() {
    let job: Job = executor().render_vello_scene_to_texture(size(64, 32), 0, BACKGROUND);
    let job = complete(
        job,
        vec![
            texture(None, 64, 32, false),
            Command::CreateTextureView,
            Command::LockRenderer,
        ],
    );
    let job = step(
        job,
        render(RenderTarget::NewTexture, 64, 32, 40),
        Event::Failed("lost".to_string()),
    );
    assert!(!job.hands_out_texture());
    assert_eq!(job.into_result(), Err("lost".to_string()));
}

/// The commands of a frame that goes well, by their index: where the renderer is locked and
/// unlocked, where it is used, and where a target is locked.
fn locking(mut job: Job) -> (Vec<usize>, Vec<usize>, Vec<usize>, Vec<usize>) {
    let (mut lock, mut unlock, mut used, mut target) = (vec![], vec![], vec![], vec![]);
    let mut i = 0;
    loop {
        let event = match job.next_command() {
            None => break,
            Some(Command::LockTarget) => {
                target.push(i);
                Event::TargetLocked(None)
            }
            Some(Command::QueryCapabilities) => Event::Capabilities(capabilities()),
            Some(command) => {
                match command {
                    Command::LockRenderer => lock.push(i),
                    Command::UnlockRenderer => unlock.push(i),
                    Command::OverrideImage { .. } | Command::RenderScene { .. } => used.push(i),
                    _ => {}
                }
                Event::Completed
            }
        };
        job = job.advance(event);
        i += 1;
    }
    (lock, unlock, used, target)
}

#[test]
fn renderer_is_used_only_while_it_is_locked() {
    let used = |from: usize, to: usize| (from..to).collect::<Vec<usize>>();
    let scene: Job = executor().render_vello_scene(size(5, 5), 2, BACKGROUND);
    assert_eq!(locking(scene), (vec![6], vec![12], used(7, 12), vec![0]));
    let texture: Job = executor().render_vello_scene_to_texture(size(5, 5), 2, BACKGROUND);
    assert_eq!(locking(texture), (vec![2], vec![8], used(3, 8), vec![]));
    let pixels: Job = executor().render_vello_scene_view_mode_pixels(
        IVec2 { x: 3, y: 2 },
        footprint(size(0, 0), size(8, 6)),
        1,
        BACKGROUND,
    );
    assert_eq!(locking(pixels), (vec![2], vec![6], used(3, 6), vec![]));
}

#[test]
fn empty_scene_has_a_texture_of_one_pixel() {
    let job: Job = executor().render_vello_scene_to_texture(size(0, 0), 0, BACKGROUND);
    let job = complete(
        job,
        vec![
            texture(None, 1, 1, false),
            Command::CreateTextureView,
            Command::LockRenderer,
            render(RenderTarget::NewTexture, 0, 0, 40),
            Command::UnlockRenderer,
        ],
    );
    assert!(job.next_command().is_none());
}

#[test]
fn frames_have_the_length_that_the_request_decides() {
    // A scene of three entries without a kept target: two commands for each entry and fourteen.
    let mut job: Job = executor().render_vello_scene(size(5, 5), 3, BACKGROUND);
    let mut count = 0;
    loop {
        let event = match job.next_command() {
            None => break,
            Some(Command::LockTarget) => Event::TargetLocked(None),
            Some(Command::QueryCapabilities) => Event::Capabilities(capabilities()),
            Some(_) => Event::Completed,
        };
        job = job.advance(event);
        count += 1;
    }
    assert_eq!(count, 20);
}

/// For each image that a texture stands for: the frame and the entry of the texture.
type Overrides = BTreeMap<u64, (usize, usize)>;

/// A frame with the images of its render context, and whether its drawing fails.
struct Drawing {
    frame: usize,
    job: Job,
    images: Vec<u64>,
    fails: bool,
}

impl Drawing {
    fn new(frame: usize, images: &[u64], fails: bool) -> Self {
        Drawing {
            frame,
            job: executor().render_vello_scene(size(4, 3), images.len(), BACKGROUND),
            images: images.to_vec(),
            fails,
        }
    }

    /// Performs one command. What stood for images is returned where the command draws.
    fn turn(mut self, overrides: &mut Overrides) -> (Self, Option<Overrides>) {
        let mut seen = None;
        let event = match self.job.next_command().unwrap() {
            Command::LockTarget => Event::TargetLocked(None),
            Command::QueryCapabilities => Event::Capabilities(capabilities()),
            Command::OverrideImage { entry, texture } => {
                let image = self.images[*entry];
                match texture {
                    Some(_) => overrides.insert(image, (self.frame, *entry)),
                    None => overrides.remove(&image),
                };
                Event::Completed
            }
            Command::RenderScene { .. } => {
                seen = Some(overrides.clone());
                if self.fails {
                    Event::Failed("no memory".to_string())
                } else {
                    Event::Completed
                }
            }
            _ => Event::Completed,
        };
        self.job = self.job.advance(event);
        (self, seen)
    }

    /// Performs all commands. What the drawing saw is returned.
    fn run(mut self, overrides: &mut Overrides) -> Overrides {
        let mut drawn = None;
        while self.job.next_command().is_some() {
            let (next, seen) = self.turn(overrides);
            self = next;
            drawn = drawn.or(seen);
        }
        drawn.unwrap()
    }
}

#[test]
fn frames_see_their_own_textures_one_after_the_other() {
    let mut overrides = Overrides::new();
    let seen = Drawing::new(0, &[5, 6, 5], false).run(&mut overrides);
    assert_eq!(seen, Overrides::from([(5, (0, 2)), (6, (0, 1))]));
    assert_eq!(overrides, Overrides::new());
    let seen = Drawing::new(1, &[6], false).run(&mut overrides);
    assert_eq!(seen, Overrides::from([(6, (1, 0))]));
    assert_eq!(overrides, Overrides::new());
    assert_eq!(Drawing::new(2, &[], false).run(&mut overrides), Overrides::new());
}

#[test]
fn frames_that_could_not_draw_leave_their_textures() {
    let mut overrides = Overrides::new();
    Drawing::new(0, &[5, 6], true).run(&mut overrides);
    assert_eq!(overrides, Overrides::from([(5, (0, 0)), (6, (0, 1))]));
    let seen = Drawing::new(1, &[6, 7], false).run(&mut overrides);
    assert_eq!(
        seen,
        Overrides::from([(5, (0, 0)), (6, (1, 0)), (7, (1, 1))])
    );
    assert_eq!(overrides, Overrides::from([(5, (0, 0))]));
}

#[test]
fn frames_at_the_same_time_see_their_own_textures() {
    let mut overrides = Overrides::new();
    let mut waiting = vec![
        Drawing::new(0, &[5, 6], false),
        Drawing::new(1, &[6, 7, 6], false),
        Drawing::new(2, &[5], false),
    ];
    let mut holder: Option<usize> = None;
    let mut drawn = Vec::new();
    while !waiting.is_empty() {
        let mut next = Vec::new();
        for drawing in waiting {
            let frame = drawing.frame;
            let (locks, unlocks) = match drawing.job.next_command() {
                Some(Command::LockRenderer) => (true, false),
                Some(Command::UnlockRenderer) => (false, true),
                Some(_) => (false, false),
                None => continue,
            };
            if locks && holder.is_some() {
                next.push(drawing);
                continue;
            }
            let (drawing, seen) = drawing.turn(&mut overrides);
            if let Some(seen) = seen {
                drawn.push((frame, seen));
            }
            if locks {
                holder = Some(frame);
            } else if unlocks {
                holder = None;
                assert_eq!(overrides, Overrides::new());
            }
            next.push(drawing);
        }
        // Another frame goes first each time.
        next.reverse();
        waiting = next;
    }
    drawn.sort();
    assert_eq!(
        drawn,
        vec![
            (0, Overrides::from([(5, (0, 0)), (6, (0, 1))])),
            (1, Overrides::from([(6, (1, 2)), (7, (1, 1))])),
            (2, Overrides::from([(5, (2, 0))])),
        ]
    );
}

#[test]
fn target_surface_and_blitter_have_one_format() {
    let blitter = executor()
        .create_surface_inner("surface", SurfaceId(1))
        .blitter_format;
    let mut drawing = Drawing::new(0, &[], false);
    let mut target = None;
    let mut surface = None;
    while let Some(command) = drawing.job.next_command() {
        match command {
            Command::CreateTexture(texture) => target = Some(texture.format),
            Command::ConfigureSurface(configuration) => surface = Some(configuration.format),
            _ => {}
        }
        drawing = drawing.turn(&mut Overrides::new()).0;
    }
    assert_eq!((target, surface), (Some(blitter), Some(blitter)));
    assert_eq!(blitter, TextureFormat::Rgba8Unorm);
}
