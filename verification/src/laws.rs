//! The laws of whole frames.

use crate::command::{Command, Event, RenderTarget};
use crate::descriptor::{
    output_texture, params_over, params_over_opaque, surface_configuration, target_texture,
    RenderParams, Rgba8,
};
use crate::device::{described, lemma_steps, Device};
use crate::effects::{
    lemma_creates_no_texture, lemma_fallible, lemma_installed, lemma_locking,
    lemma_one_texture, lemma_only_scene, lemma_program, lemma_program_length, lemma_scene_is_drawn,
    lemma_start_is_valid, lemma_state_at_acquire, lemma_state_at_render,
};
use crate::geometry::UVec2;
use crate::job::{artboard_size, law_frames_only_grow, program, Progress, Request};
use crate::pipeline::{
    canvas_bind_group, canvas_bindings, canvas_pass, canvas_pipeline, vertex_buffer,
};
use crate::surface::{blitter_format, unfinished_surface, SurfaceId};
use crate::upload::stored_words;
use vstd::prelude::*;

verus! {

/// Whether, from `before` to `after`, the texture of each image's last entry came to stand for
/// the image, and nothing else changed.
pub open spec fn overridden(
    before: Map<u64, int>,
    after: Map<u64, int>,
    images: Seq<u64>,
) -> bool {
    &&& forall|image: u64|
        images.contains(image) ==> #[trigger] after.dom().contains(image) && 0 <= after[image]
            < images.len() && images[after[image]] == image
    &&& forall|image: u64, i: int|
        #![trigger after[image], images[i]]
        0 <= i < images.len() && images[i] == image ==> i <= after[image]
    &&& forall|image: u64|
        !images.contains(image) ==> (#[trigger] after.dom().contains(image)
            <==> before.dom().contains(image)) && (before.dom().contains(image) ==> after[image]
            == before[image])
}

/// Whether the frame shows something.
pub open spec fn shows(request: Request) -> bool {
    match request {
        Request::ViewModePixels { footprint, .. } => !footprint.is_past_canvas(),
        Request::Scene { .. } => true,
        Request::Texture { .. } => false,
    }
}

/// Whether `progress` is a frame of a renderer with these images in its render context and of a
/// surface that keeps `target`.
pub open spec fn frame_of<F, P, E>(
    progress: Progress<F, P, E>,
    images: Seq<u64>,
    target: Option<UVec2>,
) -> bool {
    &&& progress.valid()
    &&& images.len() == progress.request.overrides()
    &&& progress.kept matches Some(kept) ==> kept == target
}

/// Whatever a frame is answered, all that each of its commands needs is there when its turn
/// comes: every resource was made before it is used, a texture is drawn into through its view,
/// the renderer is locked while it is told anything, nothing is configured while a texture of
/// the surface is held, and what is shown was drawn, recorded and submitted. A texture is large
/// enough for what is drawn into it. On a surface, the target, the drawing and the surface have
/// one size; the target can be written by the renderer and sampled by the blitter, whose format
/// it shares with the surface. The sources of the shaders are not
/// interpreted: nothing is said of whether they compile, or fit the pipeline that they go into.
pub proof fn law_commands_find_what_they_need<F, P, E>(
    progress: Progress<F, P, E>,
    images: Seq<u64>,
    overrides: Map<u64, int>,
    target: Option<UVec2>,
)
    requires
        frame_of(progress, images, target),
    ensures
        Device::before_frame(overrides, target).ready_for_all(images, progress.program()),
{
    lemma_program(progress, images, overrides, target);
}

/// The state that a frame has led to: that after all commands that went well.
pub open spec fn state_of<F, P, E>(
    progress: Progress<F, P, E>,
    images: Seq<u64>,
    overrides: Map<u64, int>,
    target: Option<UVec2>,
) -> Device {
    Device::before_frame(overrides, target).after_first(
        images,
        progress.program(),
        if progress.failure is Some {
            (progress.performed - 1) as nat
        } else {
            progress.performed
        },
    )
}

/// The target that a surface keeps after a frame that used it.
pub open spec fn target_after(request: Request, target: Option<UVec2>) -> Option<UVec2> {
    match request {
        Request::Scene { size, .. } => Some(size),
        _ => target,
    }
}

/// A frame that went well leaves no texture in the place of an image of its render context and
/// touches no other image. It has shown one texture, or none where there is nothing to show,
/// since the origin of the artboard lies at or past an edge of the canvas, or no surface, and
/// holds none. The renderer is not locked. A surface that a scene was drawn onto
/// keeps a target of the scene's size, and any other surface what it kept. The end of the frame
/// unlocks the target.
pub proof fn law_finished_frame<F, P, E>(
    progress: Progress<F, P, E>,
    images: Seq<u64>,
    overrides: Map<u64, int>,
    target: Option<UVec2>,
)
    requires
        frame_of(progress, images, target),
        progress.is_finished(),
        progress.result() is Ok,
    ensures
        ({
            let state = state_of(progress, images, overrides, target);
            &&& state.overrides == overrides.remove_keys(images.to_set())
            &&& !state.renderer_locked
            &&& !state.released().target_locked
            &&& !state.acquired
            &&& state.shown == if shows(progress.request) {
                1nat
            } else {
                0
            }
            &&& state.shown == 1 <==> match progress.request {
                Request::ViewModePixels { footprint, .. } => {
                    &&& footprint.translation.x < footprint.resolution.x
                    &&& footprint.translation.y < footprint.resolution.y
                },
                Request::Scene { .. } => true,
                Request::Texture { .. } => false,
            }
            &&& state.target == described(target_after(progress.request, target))
        }),
{
    lemma_program(progress, images, overrides, target);
}

/// Whether a frame failed because the renderer could not draw.
pub open spec fn could_not_draw<F, P, E>(progress: Progress<F, P, E>) -> bool {
    progress.failure is Some && progress.performed_commands().last() is RenderScene
}

/// A frame that failed has shown nothing and holds no texture of the surface. If the renderer
/// could not draw, the textures of the render context still stand for its images, since nothing
/// takes them back. If no texture of the surface was to be had, they were taken back before. A
/// surface that a scene was to be drawn onto keeps a target of the scene's size all the same. The
/// renderer is still locked if it could not draw; the end of the frame unlocks it.
pub proof fn law_failed_frame<F, P, E>(
    progress: Progress<F, P, E>,
    images: Seq<u64>,
    overrides: Map<u64, int>,
    target: Option<UVec2>,
)
    requires
        frame_of(progress, images, target),
        progress.result() is Err,
    ensures
        ({
            let state = state_of(progress, images, overrides, target);
            let failed = progress.performed_commands().last();
            &&& failed is RenderScene || failed is AcquireSurfaceTexture
            &&& failed is RenderScene ==> overridden(overrides, state.overrides, images)
            &&& failed is AcquireSurfaceTexture ==> state.overrides == overrides.remove_keys(
                images.to_set(),
            )
            &&& !state.acquired
            &&& state.shown == 0
            &&& state.target == described(target_after(progress.request, target))
            &&& state.renderer_locked <==> failed is RenderScene
            &&& !state.released().renderer_locked
            &&& !state.released().target_locked
        }),
{
    let i = progress.performed - 1;
    assert(progress.performed_commands().last() == progress.program()[i]);
    if progress.program()[i] is RenderScene {
        lemma_state_at_render(progress, images, overrides, target, i);
        lemma_installed(overrides, images, images.len());
        assert(images.take(images.len() as int) =~= images);
    } else {
        lemma_state_at_acquire(progress, images, overrides, target, i);
    }
}

/// While the renderer draws, the texture of each image's last entry stands for the image, and
/// nothing else is changed.
pub proof fn law_textures_stand_for_images<F, P, E>(
    progress: Progress<F, P, E>,
    images: Seq<u64>,
    overrides: Map<u64, int>,
    target: Option<UVec2>,
    i: int,
)
    requires
        frame_of(progress, images, target),
        0 <= i < progress.program().len(),
        progress.program()[i] is RenderScene,
    ensures
        overridden(
            overrides,
            Device::before_frame(overrides, target).after_first(
                images,
                progress.program(),
                i as nat,
            ).overrides,
            images,
        ),
{
    lemma_state_at_render(progress, images, overrides, target, i);
    lemma_installed(overrides, images, images.len());
    assert(images.take(images.len() as int) =~= images);
}

/// A frame of a renderer, on a surface that keeps `target` when the frame starts.
pub struct Frame<F, P, E> {
    pub progress: Progress<F, P, E>,
    pub images: Seq<u64>,
    pub target: Option<UVec2>,
}

/// Whether each of the frames is one and has come to its end, well or badly.
pub open spec fn all_ended<F, P, E>(frames: Seq<Frame<F, P, E>>) -> bool {
    forall|k: int|
        0 <= k < frames.len() ==> {
            let frame = #[trigger] frames[k];
            frame_of(frame.progress, frame.images, frame.target) && frame.progress.is_finished()
        }
}

/// What stands for images in a renderer once it has drawn one frame after the other, on whatever
/// surfaces.
pub open spec fn overrides_after<F, P, E>(
    frames: Seq<Frame<F, P, E>>,
    overrides: Map<u64, int>,
) -> Map<u64, int>
    decreases frames.len(),
{
    if frames.len() == 0 {
        overrides
    } else {
        let last = frames.last();
        state_of(
            last.progress,
            last.images,
            overrides_after(frames.drop_last(), overrides),
            last.target,
        ).overrides
    }
}

/// Whether one of the frames failed because the renderer could not draw, with `image` in its
/// render context.
pub open spec fn left_behind<F, P, E>(frames: Seq<Frame<F, P, E>>, image: u64) -> bool {
    exists|k: int|
        0 <= k < frames.len() && could_not_draw((#[trigger] frames[k]).progress)
            && frames[k].images.contains(image)
}

/// What still stands for an image after any number of frames was there before them, or was left
/// behind by a frame with that image that could not draw. Nothing else leaves anything behind.
pub proof fn law_only_failed_drawings_leave_textures<F, P, E>(
    frames: Seq<Frame<F, P, E>>,
    overrides: Map<u64, int>,
)
    requires
        all_ended(frames),
    ensures
        forall|image: u64| #[trigger]
            overrides_after(frames, overrides).dom().contains(image) ==> overrides.dom().contains(
                image,
            ) || left_behind(frames, image),
    decreases frames.len(),
{
    if frames.len() > 0 {
        let earlier = frames.drop_last();
        let last = frames.last();
        let before = overrides_after(earlier, overrides);
        let progress = last.progress;
        assert(last == frames[frames.len() - 1]);
        assert(all_ended(earlier)) by {
            assert forall|k: int| 0 <= k < earlier.len() implies {
                let frame = #[trigger] earlier[k];
                frame_of(frame.progress, frame.images, frame.target)
                    && frame.progress.is_finished()
            } by {
                assert(earlier[k] == frames[k]);
            }
        }
        law_only_failed_drawings_leave_textures(earlier, overrides);
        if progress.failure is Some {
            law_failed_frame(progress, last.images, before, last.target);
        } else {
            law_finished_frame(progress, last.images, before, last.target);
        }
        assert forall|image: u64| #[trigger]
            overrides_after(frames, overrides).dom().contains(
                image,
            ) implies overrides.dom().contains(image) || left_behind(frames, image) by {
            if could_not_draw(progress) && last.images.contains(image) {
                assert(could_not_draw(frames[frames.len() - 1].progress));
            } else {
                assert(before.dom().contains(image));
                if left_behind(earlier, image) {
                    let k = choose|k: int|
                        0 <= k < earlier.len() && could_not_draw((#[trigger] earlier[k]).progress)
                            && earlier[k].images.contains(image);
                    assert(frames[k] == earlier[k]);
                }
            }
        }
    }
}

/// Whether the textures of a render context with these images, and no others, stand for images:
/// for each image that of its last entry.
pub open spec fn own_entries(overrides: Map<u64, int>, images: Seq<u64>) -> bool {
    &&& overrides.dom() == images.to_set()
    &&& forall|image: u64| #[trigger]
        overrides.dom().contains(image) ==> 0 <= overrides[image] < images.len()
            && images[overrides[image]] == image
    &&& forall|i: int| 0 <= i < images.len() ==> i <= overrides[#[trigger] images[i]]
}

/// After any number of frames, none of which failed because the renderer could not draw, nothing
/// stands for an image in a renderer in which nothing did before them, and the next drawing sees
/// the textures of its own render context and no others.
pub proof fn law_drawings_see_their_own_textures<F, P, E>(
    frames: Seq<Frame<F, P, E>>,
    next: Frame<F, P, E>,
    i: int,
)
    requires
        all_ended(frames),
        forall|k: int|
            0 <= k < frames.len() ==> !could_not_draw((#[trigger] frames[k]).progress),
        frame_of(next.progress, next.images, next.target),
        0 <= i < next.progress.program().len(),
        next.progress.program()[i] is RenderScene,
    ensures
        overrides_after(frames, Map::empty()) == Map::<u64, int>::empty(),
        own_entries(
            Device::before_frame(
                overrides_after(frames, Map::empty()),
                next.target,
            ).after_first(next.images, next.progress.program(), i as nat).overrides,
            next.images,
        ),
{
    let before = overrides_after(frames, Map::empty());
    law_only_failed_drawings_leave_textures(frames, Map::empty());
    assert(before =~= Map::<u64, int>::empty()) by {
        assert forall|image: u64| !before.dom().contains(image) by {
            if before.dom().contains(image) {
                assert(left_behind(frames, image));
            }
        }
    }
    law_textures_stand_for_images(next.progress, next.images, before, next.target, i);
    let seen = Device::before_frame(before, next.target).after_first(
        next.images,
        next.progress.program(),
        i as nat,
    ).overrides;
    assert(seen.dom() =~= next.images.to_set()) by {
        assert forall|image: u64| seen.dom().contains(image) <==> next.images.to_set().contains(
            image,
        ) by {
            assert(next.images.contains(image) ==> seen.dom().contains(image));
            assert(!next.images.contains(image) ==> !seen.dom().contains(image));
        }
    }
    assert forall|j: int| 0 <= j < next.images.len() implies j <= seen[
    #[trigger] next.images[j]] by {
        let image = next.images[j];
        assert(overridden(before, seen, next.images));
        assert(j <= seen[image]);
    }
}

/// When the target of a surface is shown, it has the size of the surface, the target, the surface
/// and the surface's blitter have one format, and the surface can be drawn into.
pub proof fn law_shown_target_fits_its_surface<F, P, E>(
    progress: Progress<F, P, E>,
    images: Seq<u64>,
    overrides: Map<u64, int>,
    target: Option<UVec2>,
    i: int,
)
    requires
        frame_of(progress, images, target),
        0 <= i < progress.program().len(),
        progress.program()[i] is Blit,
    ensures
        ({
            let state = Device::before_frame(overrides, target).after_first(
                images,
                progress.program(),
                i as nat,
            );
            &&& state.target matches Some(drawn) && state.surface matches Some(surface)
                && drawn.size.width == surface.size.x && drawn.size.height == surface.size.y
                && drawn.format == blitter_format() && surface.format == blitter_format()
                && surface.render_attachment
            &&& state.blitter == blitter_format()
        }),
{
    let device = Device::before_frame(overrides, target);
    lemma_program(progress, images, overrides, target);
    lemma_blitter_stays(device, images, progress.program(), i as nat);
    reveal(Device::ready_for_all);
    assert(device.after_first(images, progress.program(), i as nat).ready(
        images,
        progress.program()[i as nat as int],
    ));
}

proof fn lemma_blitter_stays<F, P>(
    device: Device,
    images: Seq<u64>,
    commands: Seq<Command<F, P>>,
    n: nat,
)
    ensures
        device.after_first(images, commands, n).blitter == device.blitter,
    decreases n,
{
    if n == 0 {
        lemma_steps(device, images, commands, 0);
    } else {
        lemma_blitter_stays(device, images, commands, (n - 1) as nat);
        lemma_steps(device, images, commands, (n - 1) as nat);
    }
}

/// Every surface is made with a blitter for the format in which its targets are made and in
/// which it is set up, whatever its size and its present mode.
pub proof fn law_surfaces_have_one_format<S, P>(
    inner: S,
    window_id: SurfaceId,
    size: UVec2,
    present_mode: P,
    copy_dst: bool,
)
    ensures
        unfinished_surface(inner, window_id).blitter_format == target_texture(size).format,
        target_texture(size).format == surface_configuration(size, present_mode, copy_dst).format,
{
}

/// Once a scene was drawn onto a surface, well or badly, the next frame of the same size creates
/// no texture: it draws into the target that the surface keeps.
pub proof fn law_target_is_reused<F, P, E>(
    size: UVec2,
    progress: Progress<F, P, E>,
    images: Seq<u64>,
    overrides: Map<u64, int>,
    target: Option<UVec2>,
    next: Progress<F, P, E>,
)
    requires
        frame_of(progress, images, target),
        progress.request matches Request::Scene { size: drawn, .. } && drawn == size,
        progress.is_finished(),
        next.valid(),
        next.request matches Request::Scene { size: asked, .. } && asked == size,
        next.kept matches Some(kept) ==> described(kept) == state_of(
            progress,
            images,
            overrides,
            target,
        ).target,
    ensures
        forall|i: int|
            0 <= i < next.program().len() ==> !(#[trigger] next.program()[i] is CreateTexture),
{
    if progress.failure is Some {
        law_failed_frame(progress, images, overrides, target);
    } else {
        law_finished_frame(progress, images, overrides, target);
    }
    lemma_creates_no_texture(next);
}

/// A surface that keeps no target, or one of another size, gets a new texture of the scene's
/// size as soon as it is locked.
pub proof fn law_target_is_replaced<F, P, E>(
    progress: Progress<F, P, E>,
    size: UVec2,
    kept: Option<UVec2>,
)
    requires
        progress.valid(),
        progress.request matches Request::Scene { size: asked, .. } && asked == size,
        progress.kept == Some(kept),
        kept != Some(size),
    ensures
        progress.program().len() > 4,
        progress.program()[1] == Command::<F, P>::CreateTexture(target_texture(size)),
        progress.program()[2] == Command::<F, P>::CreateTextureView,
        progress.program()[3] == Command::<F, P>::StoreTarget(size),
{
}

/// A scene that is drawn into a texture of its own is drawn into the one texture that its frame
/// creates. That texture has no empty side and is as large as the scene where the scene has none
/// either.
pub proof fn law_scene_has_one_texture<F, P, E>(progress: Progress<F, P, E>, size: UVec2)
    requires
        progress.valid(),
        progress.request matches Request::Texture { size: asked, .. } && asked == size,
    ensures
        progress.program().len() > 0,
        progress.program()[0] == Command::<F, P>::CreateTexture(output_texture(size)),
        forall|i: int|
            0 <= i < progress.program().len() ==> (#[trigger] progress.program()[i] is
                CreateTexture <==> i == 0),
        output_texture(size).size.width >= 1,
        output_texture(size).size.height >= 1,
        size.x > 0 ==> output_texture(size).size.width == size.x,
        size.y > 0 ==> output_texture(size).size.height == size.y,
{
    assert forall|i: int| 0 <= i < progress.program().len() implies (
    #[trigger] progress.program()[i] is CreateTexture <==> i == 0) by {
        lemma_one_texture(progress, i);
    }
}

/// Where there is nothing to show, or no surface, no texture of a surface is acquired.
pub proof fn law_nothing_is_acquired_in_vain<F, P, E>(progress: Progress<F, P, E>)
    requires
        progress.valid(),
        !shows(progress.request),
    ensures
        forall|i: int|
            0 <= i < progress.program().len() ==> !(#[trigger] progress.program()[i] is
                AcquireSurfaceTexture),
{
    assert forall|i: int| 0 <= i < progress.program().len() implies !(
    #[trigger] progress.program()[i] is AcquireSurfaceTexture) by {
        if progress.program()[i] is AcquireSurfaceTexture {
            lemma_fallible(progress, i);
        }
    }
}

/// Where a frame draws.
pub open spec fn render_target(request: Request) -> RenderTarget {
    match request {
        Request::Scene { .. } => RenderTarget::SurfaceTarget,
        _ => RenderTarget::NewTexture,
    }
}

/// How a frame draws: at the size of the request, and over the background, which is opaque
/// where the frame is shown on a surface and as it is where it is handed out in a texture.
pub open spec fn render_params(request: Request) -> RenderParams {
    match request {
        Request::ViewModePixels { artboard_dimensions, background, .. } => params_over_opaque(
            artboard_size(artboard_dimensions),
            background,
        ),
        Request::Scene { size, background, .. } => params_over_opaque(size, background),
        Request::Texture { size, background, .. } => params_over(size, background),
    }
}

/// Whatever a frame draws on a surface, it draws over the background's colour without its
/// transparency; what is handed out in a texture keeps the transparency.
pub proof fn law_surfaces_are_opaque<F, P, E>(
    progress: Progress<F, P, E>,
    target: RenderTarget,
    params: RenderParams,
    i: int,
)
    requires
        progress.valid(),
        0 <= i < progress.program().len(),
        progress.program()[i] == (Command::<F, P>::RenderScene { target, params }),
    ensures
        target == render_target(progress.request),
        params == render_params(progress.request),
        match progress.request {
            Request::Texture { background, .. } => params.base_color == background,
            Request::Scene { background, .. } => params.base_color == (Rgba8 {
                a: 0xff,
                ..background
            }),
            Request::ViewModePixels { background, .. } => params.base_color == (Rgba8 {
                a: 0xff,
                ..background
            }),
        },
{
    lemma_only_scene(progress, i);
}

/// The frame after `events`.
pub open spec fn run<F, P, E>(start: Progress<F, P, E>, events: Seq<Event<F, P, E>>) -> Progress<
    F,
    P,
    E,
>
    decreases events.len(),
{
    if events.len() == 0 {
        start
    } else {
        run(start, events.drop_last()).after(events.last())
    }
}

/// Whether each of `events` answers the command that it comes after.
pub open spec fn answers<F, P, E>(
    start: Progress<F, P, E>,
    events: Seq<Event<F, P, E>>,
) -> bool
    decreases events.len(),
{
    events.len() == 0 || (answers(start, events.drop_last()) && run(
        start,
        events.drop_last(),
    ).accepts(events.last()))
}

/// Every frame that is answered command by command stays valid, and has performed one command
/// for each answer.
pub proof fn law_every_run_is_valid<F, P, E>(request: Request, events: Seq<Event<F, P, E>>)
    requires
        answers(Progress::start(request), events),
    ensures
        run(Progress::start(request), events).valid(),
        run(Progress::start(request), events).request == request,
        run(Progress::start(request), events).performed == events.len(),
    decreases events.len(),
{
    if events.len() == 0 {
        lemma_start_is_valid::<F, P, E>(request);
    } else {
        law_every_run_is_valid(request, events.drop_last());
        law_frames_only_grow(run(Progress::start(request), events.drop_last()), events.last());
    }
}

/// The number of commands of a frame that goes well.
pub open spec fn frame_length(request: Request, kept: Option<UVec2>) -> int {
    match request {
        Request::ViewModePixels { overrides, .. } => 2 * overrides + if shows(request) {
            21int
        } else {
            16
        },
        Request::Scene { size, overrides, .. } => 2 * overrides + if kept == Some(size) {
            11int
        } else {
            14
        },
        Request::Texture { overrides, .. } => 2 * overrides + 5,
    }
}

/// A frame that goes well has asked all that it needs to know, and ends after a number of
/// commands that the request and the kept target decide. No frame takes longer.
pub proof fn law_frames_end<F, P, E>(progress: Progress<F, P, E>)
    requires
        progress.valid(),
    ensures
        ({
            let kept = match progress.kept {
                Some(kept) => kept,
                None => None,
            };
            &&& progress.performed <= frame_length(progress.request, kept)
            &&& progress.is_finished() && progress.result() is Ok ==> {
                &&& progress.kept is Some <==> progress.request is Scene
                &&& progress.capabilities is Some <==> !(progress.request is Texture)
                &&& progress.performed == frame_length(progress.request, kept)
            }
        }),
{
    lemma_program_length(progress);
}

/// Each resource of the bind group is bound under the number that the layout gives it, the
/// numbers differ, and the buffer with the corners holds as many vertices as are drawn, of the
/// size that the pipeline steps by. The sources of the shaders are not interpreted: the numbers
/// under which they declare their resources are not compared with those of the layout.
pub proof fn law_bindings_and_vertices_agree<F>(format: F, bytes: Seq<u8>)
    requires
        stored_words(vertex_buffer().contents.words(), bytes),
    ensures
        canvas_bind_group().transform_buffer == canvas_bindings().affine_transformation.binding,
        canvas_bind_group().artboard_view == canvas_bindings().artboard_texture.binding,
        canvas_bind_group().linear_sampler == canvas_bindings().linear_sampler.binding,
        canvas_bind_group().transform_buffer != canvas_bind_group().artboard_view,
        canvas_bind_group().artboard_view != canvas_bind_group().linear_sampler,
        canvas_bind_group().transform_buffer != canvas_bind_group().linear_sampler,
        bytes.len() == (canvas_pass().end_vertex - canvas_pass().first_vertex)
            * canvas_pipeline(format).vertex_buffer.array_stride,
{
}

/// Where a frame locks the renderer.
pub open spec fn lock_at<F, P, E>(progress: Progress<F, P, E>) -> int {
    match progress.request {
        Request::Scene { .. } => program::<F, P>(progress.request, progress.kept, None).len()
            + 1int,
        _ => 2,
    }
}

/// Where a frame draws, after it has put the textures in place.
pub open spec fn draw_at<F, P, E>(progress: Progress<F, P, E>) -> int {
    lock_at(progress) + progress.request.overrides() + 1
}

/// Where a frame unlocks the renderer.
pub open spec fn unlock_at<F, P, E>(progress: Progress<F, P, E>) -> int {
    lock_at(progress) + 2 * progress.request.overrides() + 2
}

/// Whether a frame holds the renderer after its first `n` commands.
pub open spec fn holds_renderer<F, P, E>(progress: Progress<F, P, E>, n: nat) -> bool {
    lock_at(progress) < n <= unlock_at(progress)
}

/// Whether a frame holds the target of its surface after its first `n` commands.
pub open spec fn holds_target<F, P, E>(progress: Progress<F, P, E>, n: nat) -> bool {
    progress.request is Scene && n >= 1
}

/// A frame locks the renderer in one place and unlocks it in one place, and the renderer is
/// locked exactly from the one to the other. The textures are put in place, the scene is drawn
/// and the textures are taken back between the two, and nowhere else.
pub proof fn law_renderer_is_locked_once<F, P, E>(
    progress: Progress<F, P, E>,
    images: Seq<u64>,
    overrides: Map<u64, int>,
    target: Option<UVec2>,
)
    requires
        frame_of(progress, images, target),
    ensures
        forall|n: nat|
            n <= progress.program().len() ==> (#[trigger] Device::before_frame(
                overrides,
                target,
            ).after_first(images, progress.program(), n).renderer_locked <==> holds_renderer(
                progress,
                n,
            )),
        forall|i: int|
            #![trigger progress.program()[i]]
            0 <= i < progress.program().len() ==> {
                let command = progress.program()[i];
                &&& command is LockRenderer <==> i == lock_at(progress)
                &&& command is UnlockRenderer <==> i == unlock_at(progress)
                &&& (command is OverrideImage || command is RenderScene) <==> lock_at(progress)
                    < i < unlock_at(progress)
            },
{
    assert forall|n: nat| n <= progress.program().len() implies (#[trigger] Device::before_frame(
        overrides,
        target,
    ).after_first(images, progress.program(), n).renderer_locked <==> holds_renderer(
        progress,
        n,
    )) by {
        lemma_locks_held(progress, images, overrides, target, n);
    }
    assert forall|i: int|
        #![trigger progress.program()[i]]
        0 <= i < progress.program().len() implies {
        let command = progress.program()[i];
        &&& command is LockRenderer <==> i == lock_at(progress)
        &&& command is UnlockRenderer <==> i == unlock_at(progress)
        &&& (command is OverrideImage || command is RenderScene) <==> lock_at(progress) < i
            < unlock_at(progress)
    } by {
        lemma_locking(progress, i);
    }
}

/// A frame that draws a scene onto a surface locks the surface's target first and holds it from
/// then on to its end: no command gives it back. No other frame locks a target.
pub proof fn law_target_is_held_to_the_end<F, P, E>(
    progress: Progress<F, P, E>,
    images: Seq<u64>,
    overrides: Map<u64, int>,
    target: Option<UVec2>,
)
    requires
        frame_of(progress, images, target),
    ensures
        forall|n: nat|
            n <= progress.program().len() ==> (#[trigger] Device::before_frame(
                overrides,
                target,
            ).after_first(images, progress.program(), n).target_locked <==> holds_target(
                progress,
                n,
            )),
{
    assert forall|n: nat| n <= progress.program().len() implies (#[trigger] Device::before_frame(
        overrides,
        target,
    ).after_first(images, progress.program(), n).target_locked <==> holds_target(
        progress,
        n,
    )) by {
        lemma_locks_held(progress, images, overrides, target, n);
    }
}

proof fn lemma_locks_held<F, P, E>(
    progress: Progress<F, P, E>,
    images: Seq<u64>,
    overrides: Map<u64, int>,
    target: Option<UVec2>,
    n: nat,
)
    requires
        frame_of(progress, images, target),
        n <= progress.program().len(),
    ensures
        ({
            let state = Device::before_frame(overrides, target).after_first(
                images,
                progress.program(),
                n,
            );
            &&& state.renderer_locked <==> holds_renderer(progress, n)
            &&& state.target_locked <==> holds_target(progress, n)
        }),
    decreases n,
{
    let device = Device::before_frame(overrides, target);
    if n == 0 {
        lemma_steps(device, images, progress.program(), 0);
    } else {
        let m = (n - 1) as nat;
        lemma_locks_held(progress, images, overrides, target, m);
        lemma_steps(device, images, progress.program(), m);
        lemma_locking(progress, m as int);
    }
}

/// When a frame is finished, it still holds the target of the surface that it drew onto, and it
/// holds the renderer exactly if the renderer could not draw. The end of the frame gives both
/// back, whatever the result, and changes neither the overrides nor the kept target.
pub proof fn law_locks_are_free_after_a_frame<F, P, E>(
    progress: Progress<F, P, E>,
    images: Seq<u64>,
    overrides: Map<u64, int>,
    target: Option<UVec2>,
)
    requires
        frame_of(progress, images, target),
        progress.is_finished(),
    ensures
        ({
            let state = state_of(progress, images, overrides, target);
            let last = progress.performed_commands().last();
            &&& state.target_locked <==> progress.request is Scene
            &&& state.renderer_locked <==> progress.result() is Err && last is RenderScene
            &&& !state.released().target_locked
            &&& !state.released().renderer_locked
            &&& state.released().overrides == state.overrides
            &&& state.released().target == state.target
        }),
{
    let last = (progress.performed - 1) as nat;
    law_frames_end(progress);
    assert(progress.performed_commands().last() == progress.program()[last as int]);
    if progress.failure is Some {
        lemma_locks_held(progress, images, overrides, target, last);
        lemma_locking(progress, last as int);
        lemma_fallible(progress, last as int);
    } else {
        lemma_locks_held(progress, images, overrides, target, progress.performed);
        lemma_program(progress, images, overrides, target);
    }
}

/// A frame that hands out a texture hands out the one that it created: its first command creates
/// it, at the size of the scene and without an empty side, no other command creates one, and the
/// scene was drawn into it over the background as it is.
pub proof fn law_handed_out_texture_holds_the_scene<F, P, E>(
    progress: Progress<F, P, E>,
    size: UVec2,
    background: Rgba8,
)
    requires
        progress.valid(),
        progress.hands_out_texture(),
        progress.request matches Request::Texture { size: asked, background: over, .. } && asked
            == size && over == background,
    ensures
        ({
            let commands = progress.performed_commands();
            let drawn = progress.request.overrides() + 3;
            &&& commands == progress.program()
            &&& commands[0] == Command::<F, P>::CreateTexture(output_texture(size))
            &&& forall|i: int|
                0 <= i < commands.len() ==> (#[trigger] commands[i] is CreateTexture <==> i == 0)
            &&& 0 <= drawn < commands.len()
            &&& commands[drawn] == (Command::<F, P>::RenderScene {
                target: RenderTarget::NewTexture,
                params: params_over(size, background),
            })
        }),
{
    let drawn = progress.request.overrides() + 3;
    law_frames_end(progress);
    lemma_program_length(progress);
    assert(progress.performed_commands() =~= progress.program());
    law_scene_has_one_texture(progress, size);
    lemma_scene_is_drawn(progress);
    lemma_only_scene(progress, drawn);
}

} // verus!
