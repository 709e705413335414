//! How the parts of a frame work on the model of the GPU, part by part.

use crate::command::{Command, RenderTarget};
use crate::descriptor::{
    artboard_texture, output_texture, params_over, params_over_opaque, surface_configuration,
    target_texture, whole_texture, Capabilities, RenderParams, TextureDescriptor, TextureFormat,
};
use crate::device::{
    all_parts, described, lemma_both_parts, lemma_push, lemma_same_start, lemma_second_part,
    lemma_steps, Device, SurfaceState,
};
use crate::geometry::UVec2;
use crate::job::{
    after_capabilities, after_target, artboard_size, blit_frame, build_canvas_pipeline,
    canvas_frame, draw_scene, install_overrides, new_texture, opening, prepare_target, program,
    remove_overrides, Progress, Request,
};
use crate::laws::{
    draw_at, frame_length, frame_of, lock_at, overridden, render_params, render_target, shows,
    target_after, unlock_at,
};
use crate::pipeline::{
    canvas_bind_group, canvas_bindings, canvas_pass, canvas_pipeline, linear_sampler,
    shader_module, transform_buffer, vertex_buffer, Footprint, ShaderStage,
};
use vstd::prelude::*;

verus! {

/// The overrides after the textures of the first `n` entries were put in place.
pub open spec fn installed(overrides: Map<u64, int>, images: Seq<u64>, n: nat) -> Map<u64, int>
    decreases n,
{
    if n == 0 {
        overrides
    } else {
        installed(overrides, images, (n - 1) as nat).insert(images[n - 1], n - 1)
    }
}

pub(crate) proof fn lemma_installed(before: Map<u64, int>, images: Seq<u64>, n: nat)
    requires
        n <= images.len(),
    ensures
        overridden(before, installed(before, images, n), images.take(n as int)),
    decreases n,
{
    let after = installed(before, images, n);
    let part = images.take(n as int);
    if n > 0 {
        let shorter = images.take(n - 1);
        lemma_installed(before, images, (n - 1) as nat);
        assert(part =~= shorter.push(images[n - 1]));
        assert forall|image: u64| part.contains(image) implies #[trigger] after.dom().contains(
            image,
        ) && 0 <= after[image] < part.len() && part[after[image]] == image by {
            if image != images[n - 1] {
                let i = part.index_of(image);
                assert(part[i] == image);
                assert(i != n - 1);
                assert(shorter[i] == image);
                assert(shorter.contains(image));
                let earlier = installed(before, images, (n - 1) as nat);
                assert(earlier.dom().contains(image));
                assert(after[image] == earlier[image]);
                assert(shorter[after[image]] == image);
            }
        }
        assert forall|image: u64, i: int|
            #![trigger after[image], part[i]]
            0 <= i < part.len() && part[i] == image implies i <= after[image] by {
            if image != images[n - 1] {
                assert(shorter[i] == image);
            }
        }
        assert forall|image: u64| !part.contains(image) implies (#[trigger] after.dom().contains(
            image,
        ) <==> before.dom().contains(image)) && (before.dom().contains(image) ==> after[image]
            == before[image]) by {
            assert(part[n - 1] == images[n - 1]);
            assert(!shorter.contains(image)) by {
                if shorter.contains(image) {
                    let i = shorter.index_of(image);
                    assert(part[i] == image);
                }
            }
        }
    }
}

pub(crate) proof fn lemma_install<F, P>(device: Device, images: Seq<u64>, overrides: usize, n: nat)
    requires
        n <= overrides,
    ensures
        device.after_first(images, install_overrides::<F, P>(overrides), n) == (Device {
            overrides: installed(device.overrides, images, n),
            ..device
        }),
    decreases n,
{
    let commands = install_overrides::<F, P>(overrides);
    if n == 0 {
        lemma_steps(device, images, commands, 0);
    } else {
        let m = (n - 1) as nat;
        lemma_install::<F, P>(device, images, overrides, m);
        lemma_steps(device, images, commands, m);
    }
}

proof fn lemma_one_more_removed(before: Map<u64, int>, images: Seq<u64>, n: nat)
    requires
        0 < n <= images.len(),
    ensures
        before.remove_keys(images.take(n - 1).to_set()).remove(images[n - 1])
            == before.remove_keys(images.take(n as int).to_set()),
{
    let shorter = images.take(n - 1);
    assert(images.take(n as int) =~= shorter.push(images[n - 1]));
    assert forall|image: u64|
        images.take(n as int).contains(image) <==> shorter.contains(image) || image == images[n
            - 1] by {
        if shorter.contains(image) {
            let i = shorter.index_of(image);
            assert(images.take(n as int)[i] == image);
        }
        assert(images.take(n as int)[n - 1] == images[n - 1]);
    }
    assert(before.remove_keys(shorter.to_set()).remove(images[n - 1]) =~= before.remove_keys(
        images.take(n as int).to_set(),
    ));
}

pub(crate) proof fn lemma_remove<F, P>(device: Device, images: Seq<u64>, overrides: usize, n: nat)
    requires
        n <= overrides,
        overrides == images.len(),
    ensures
        device.after_first(images, remove_overrides::<F, P>(overrides), n) == (Device {
            overrides: device.overrides.remove_keys(images.take(n as int).to_set()),
            ..device
        }),
    decreases n,
{
    let commands = remove_overrides::<F, P>(overrides);
    let before = device.overrides;
    if n == 0 {
        lemma_steps(device, images, commands, 0);
        assert(before.remove_keys(images.take(0).to_set()) =~= before);
    } else {
        let m = (n - 1) as nat;
        lemma_remove::<F, P>(device, images, overrides, m);
        lemma_steps(device, images, commands, m);
        assert(commands[m as int] == Command::<F, P>::OverrideImage {
            entry: m as usize,
            texture: None,
        });
        lemma_one_more_removed(before, images, n);
    }
}

/// The commands that put the textures in place.
pub(crate) proof fn lemma_install_all<F, P>(device: Device, images: Seq<u64>, overrides: usize)
    requires
        images.len() == overrides,
        device.renderer_locked,
    ensures
        device.ready_for_all(images, install_overrides::<F, P>(overrides)),
        device.after_all(images, install_overrides::<F, P>(overrides)) == (Device {
            overrides: installed(device.overrides, images, overrides as nat),
            ..device
        }),
{
    reveal(Device::ready_for_all);
    let install = install_overrides::<F, P>(overrides);
    assert forall|k: nat| k < install.len() implies #[trigger] device.after_first(
        images,
        install,
        k,
    ).ready(images, install[k as int]) by {
        lemma_install::<F, P>(device, images, overrides, k);
    }
    lemma_install::<F, P>(device, images, overrides, overrides as nat);
}

/// The commands that take the textures back.
pub(crate) proof fn lemma_remove_all<F, P>(device: Device, images: Seq<u64>, overrides: usize)
    requires
        images.len() == overrides,
        device.renderer_locked,
    ensures
        device.ready_for_all(images, remove_overrides::<F, P>(overrides)),
        device.after_all(images, remove_overrides::<F, P>(overrides)) == (Device {
            overrides: device.overrides.remove_keys(images.to_set()),
            ..device
        }),
{
    reveal(Device::ready_for_all);
    let remove = remove_overrides::<F, P>(overrides);
    assert forall|k: nat| k < remove.len() implies #[trigger] device.after_first(
        images,
        remove,
        k,
    ).ready(images, remove[k as int]) by {
        lemma_remove::<F, P>(device, images, overrides, k);
    }
    lemma_remove::<F, P>(device, images, overrides, overrides as nat);
    assert(images.take(images.len() as int) =~= images);
}

/// One more command: `b` is `a` and its last command.
pub(crate) proof fn lemma_next<F, P>(
    device: Device,
    images: Seq<u64>,
    a: Seq<Command<F, P>>,
    b: Seq<Command<F, P>>,
)
    requires
        b.len() == a.len() + 1,
        forall|i: int| 0 <= i < a.len() ==> a[i] == b[i],
        device.ready_for_all(images, a),
        device.after_all(images, a).ready(images, b[a.len() as int]),
    ensures
        device.ready_for_all(images, b),
        device.after_all(images, b) == device.after_all(images, a).after(
            images,
            b[a.len() as int],
        ),
{
    assert(b =~= a.push(b[a.len() as int]));
    lemma_push(device, images, a, b[a.len() as int]);
}

/// A single command.
pub(crate) proof fn lemma_single<F, P>(device: Device, images: Seq<u64>, command: Command<F, P>)
    requires
        device.ready(images, command),
    ensures
        device.ready_for_all(images, seq![command]),
        device.after_all(images, seq![command]) == device.after(images, command),
{
    let none = Seq::<Command<F, P>>::empty();
    reveal(Device::ready_for_all);
    lemma_steps(device, images, none, 0);
    lemma_next(device, images, none, seq![command]);
}

/// Removing what was put in place leaves what was there, without the images.
pub(crate) proof fn lemma_put_and_removed(overrides: Map<u64, int>, images: Seq<u64>)
    ensures
        installed(overrides, images, images.len()).remove_keys(images.to_set())
            == overrides.remove_keys(images.to_set()),
{
    lemma_installed(overrides, images, images.len());
    assert(images.take(images.len() as int) =~= images);
    assert(installed(overrides, images, images.len()).remove_keys(images.to_set())
        =~= overrides.remove_keys(images.to_set()));
}

/// The renderer is locked and the textures are in place.
pub open spec fn covered(device: Device, images: Seq<u64>) -> Device {
    Device {
        overrides: installed(device.overrides, images, images.len()),
        renderer_locked: true,
        ..device
    }
}

/// What drawing a scene does up to the drawing.
pub open spec fn cover<F, P>(overrides: usize) -> Seq<Command<F, P>> {
    seq![Command::LockRenderer] + install_overrides(overrides)
}

pub(crate) proof fn lemma_cover<F, P>(device: Device, images: Seq<u64>, overrides: usize)
    requires
        images.len() == overrides,
        !device.renderer_locked,
    ensures
        device.ready_for_all(images, cover::<F, P>(overrides)),
        device.after_all(images, cover::<F, P>(overrides)) == covered(device, images),
{
    let lock = Command::<F, P>::LockRenderer;
    lemma_single(device, images, lock);
    let locked = device.after(images, lock);
    lemma_install_all::<F, P>(locked, images, overrides);
    lemma_both_parts(device, images, seq![lock], install_overrides::<F, P>(overrides));
}

pub(crate) proof fn lemma_uncover<F, P>(device: Device, images: Seq<u64>, overrides: usize)
    requires
        images.len() == overrides,
        device.renderer_locked,
    ensures
        device.ready_for_all(
            images,
            remove_overrides::<F, P>(overrides) + seq![Command::<F, P>::UnlockRenderer],
        ),
        device.after_all(
            images,
            remove_overrides::<F, P>(overrides) + seq![Command::<F, P>::UnlockRenderer],
        ) == (Device {
            overrides: device.overrides.remove_keys(images.to_set()),
            renderer_locked: false,
            ..device
        }),
{
    let unlock = Command::<F, P>::UnlockRenderer;
    lemma_remove_all::<F, P>(device, images, overrides);
    let cleared = device.after_all(images, remove_overrides::<F, P>(overrides));
    lemma_single(cleared, images, unlock);
    lemma_both_parts(device, images, remove_overrides::<F, P>(overrides), seq![unlock]);
}

/// The parts of drawing a scene.
pub(crate) proof fn lemma_draw_scene_parts<F, P>(
    target: RenderTarget,
    params: RenderParams,
    overrides: usize,
)
    ensures
        draw_scene::<F, P>(target, params, overrides) == cover::<F, P>(overrides).push(
            Command::RenderScene { target, params },
        ) + (remove_overrides::<F, P>(overrides) + seq![Command::<F, P>::UnlockRenderer]),
        cover::<F, P>(overrides).len() == overrides + 1,
{
    assert(draw_scene::<F, P>(target, params, overrides) =~= cover::<F, P>(overrides).push(
        Command::RenderScene { target, params },
    ) + (remove_overrides::<F, P>(overrides) + seq![Command::<F, P>::UnlockRenderer]));
}

/// The renderer draws.
pub open spec fn drawing(device: Device, images: Seq<u64>, target: RenderTarget) -> Device {
    Device { drawn: Some(target), ..covered(device, images) }
}

/// The scene is drawn and the textures are taken back.
pub open spec fn after_drawing(device: Device, images: Seq<u64>, target: RenderTarget) -> Device {
    Device {
        overrides: device.overrides.remove_keys(images.to_set()),
        drawn: Some(target),
        ..device
    }
}

/// Whether the renderer can draw into `target`.
pub open spec fn drawable<F, P>(
    device: Device,
    target: RenderTarget,
    params: RenderParams,
) -> bool {
    (Device { renderer_locked: true, ..device }).ready(
        Seq::empty(),
        Command::<F, P>::RenderScene { target, params },
    )
}

pub(crate) proof fn lemma_draw<F, P>(
    device: Device,
    images: Seq<u64>,
    target: RenderTarget,
    params: RenderParams,
    overrides: usize,
)
    requires
        images.len() == overrides,
        !device.renderer_locked,
        drawable::<F, P>(device, target, params),
    ensures
        device.ready_for_all(
            images,
            cover::<F, P>(overrides).push(Command::RenderScene { target, params }),
        ),
        device.after_all(
            images,
            cover::<F, P>(overrides).push(Command::RenderScene { target, params }),
        ) == drawing(device, images, target),
{
    lemma_cover::<F, P>(device, images, overrides);
    lemma_push(
        device,
        images,
        cover::<F, P>(overrides),
        Command::RenderScene { target, params },
    );
}

pub(crate) proof fn lemma_finish_drawing<F, P>(
    device: Device,
    images: Seq<u64>,
    target: RenderTarget,
    overrides: usize,
)
    requires
        images.len() == overrides,
        !device.renderer_locked,
    ensures
        drawing(device, images, target).ready_for_all(
            images,
            remove_overrides::<F, P>(overrides) + seq![Command::<F, P>::UnlockRenderer],
        ),
        drawing(device, images, target).after_all(
            images,
            remove_overrides::<F, P>(overrides) + seq![Command::<F, P>::UnlockRenderer],
        ) == after_drawing(device, images, target),
{
    lemma_uncover::<F, P>(drawing(device, images, target), images, overrides);
    lemma_put_and_removed(device.overrides, images);
}

/// What drawing a scene does: while the renderer draws, textures stand for the images of the
/// render context, and afterwards none of them does.
pub(crate) proof fn lemma_draw_scene<F, P>(
    device: Device,
    images: Seq<u64>,
    target: RenderTarget,
    params: RenderParams,
    overrides: usize,
)
    requires
        images.len() == overrides,
        !device.renderer_locked,
        drawable::<F, P>(device, target, params),
    ensures
        device.ready_for_all(images, draw_scene::<F, P>(target, params, overrides)),
        device.after_all(images, draw_scene::<F, P>(target, params, overrides)) == after_drawing(
            device,
            images,
            target,
        ),
        device.after_first(
            images,
            draw_scene::<F, P>(target, params, overrides),
            (overrides + 1) as nat,
        ) == covered(device, images),
{
    let start = cover::<F, P>(overrides).push(Command::RenderScene { target, params });
    let end = remove_overrides::<F, P>(overrides) + seq![Command::<F, P>::UnlockRenderer];
    lemma_draw_scene_parts::<F, P>(target, params, overrides);
    lemma_draw::<F, P>(device, images, target, params, overrides);
    lemma_finish_drawing::<F, P>(device, images, target, overrides);
    lemma_both_parts(device, images, start, end);
    let before = cover::<F, P>(overrides);
    lemma_cover::<F, P>(device, images, overrides);
    lemma_same_start(device, images, start + end, before, before.len());
}

pub(crate) proof fn lemma_new_texture<F, P>(
    device: Device,
    images: Seq<u64>,
    texture: TextureDescriptor,
)
    ensures
        device.ready_for_all(images, new_texture::<F, P>(texture)),
        device.after_all(images, new_texture::<F, P>(texture)) == (Device {
            texture: Some(texture),
            view: Some(texture),
            ..device
        }),
{
    let create = Command::<F, P>::CreateTexture(texture);
    lemma_single(device, images, create);
    lemma_next(device, images, seq![create], seq![create, Command::CreateTextureView]);
}

/// The state once the surface has a target of `size`.
pub open spec fn prepared(device: Device, size: UVec2, kept: Option<UVec2>) -> Device {
    if kept == Some(size) {
        device
    } else {
        Device {
            texture: Some(target_texture(size)),
            view: Some(target_texture(size)),
            target: Some(target_texture(size)),
            ..device
        }
    }
}

pub(crate) proof fn lemma_prepare_target<F, P>(
    device: Device,
    images: Seq<u64>,
    size: UVec2,
    kept: Option<UVec2>,
)
    requires
        device.target_locked,
        device.target == described(kept),
    ensures
        device.ready_for_all(images, prepare_target::<F, P>(size, kept)),
        device.after_all(images, prepare_target::<F, P>(size, kept)) == prepared(
            device,
            size,
            kept,
        ),
{
    let commands = prepare_target::<F, P>(size, kept);
    if kept == Some(size) {
        reveal(Device::ready_for_all);
        lemma_steps(device, images, commands, 0);
    } else {
        let create = Command::<F, P>::CreateTexture(target_texture(size));
        let view = Command::<F, P>::CreateTextureView;
        let store = Command::<F, P>::StoreTarget(size);
        lemma_single(device, images, create);
        lemma_next(device, images, seq![create], seq![create, view]);
        lemma_next(device, images, seq![create, view], seq![create, view, store]);
    }
}

pub(crate) proof fn lemma_build_canvas_pipeline<F, P>(
    device: Device,
    images: Seq<u64>,
    footprint: Footprint,
    format: F,
)
    requires
        device.view matches Some(view) && view.usage.texture_binding,
    ensures
        device.ready_for_all(images, build_canvas_pipeline::<F, P>(footprint, format)),
        device.after_all(images, build_canvas_pipeline::<F, P>(footprint, format)) == (Device {
            canvas: all_parts(),
            ..device
        }),
{
    let c1 = Command::<F, P>::CreateShaderModule(shader_module(ShaderStage::Vertex));
    let c2 = Command::<F, P>::CreateShaderModule(shader_module(ShaderStage::Fragment));
    let c3 = Command::<F, P>::CreateBindGroupLayout(canvas_bindings());
    let c4 = Command::<F, P>::CreatePipelineLayout;
    let c5 = Command::<F, P>::CreateRenderPipeline(canvas_pipeline(format));
    let c6 = Command::<F, P>::CreateBuffer(transform_buffer(footprint.transform));
    let c7 = Command::<F, P>::CreateSampler(linear_sampler());
    let c8 = Command::<F, P>::CreateBuffer(vertex_buffer());
    let c9 = Command::<F, P>::CreateBindGroup(canvas_bind_group());
    lemma_single(device, images, c1);
    lemma_next(device, images, seq![c1], seq![c1, c2]);
    lemma_next(device, images, seq![c1, c2], seq![c1, c2, c3]);
    lemma_next(device, images, seq![c1, c2, c3], seq![c1, c2, c3, c4]);
    lemma_next(device, images, seq![c1, c2, c3, c4], seq![c1, c2, c3, c4, c5]);
    lemma_next(device, images, seq![c1, c2, c3, c4, c5], seq![c1, c2, c3, c4, c5, c6]);
    lemma_next(device, images, seq![c1, c2, c3, c4, c5, c6], seq![c1, c2, c3, c4, c5, c6, c7]);
    lemma_next(
        device,
        images,
        seq![c1, c2, c3, c4, c5, c6, c7],
        seq![c1, c2, c3, c4, c5, c6, c7, c8],
    );
    lemma_next(
        device,
        images,
        seq![c1, c2, c3, c4, c5, c6, c7, c8],
        seq![c1, c2, c3, c4, c5, c6, c7, c8, c9],
    );
}

/// A frame was shown.
pub open spec fn shown(device: Device) -> Device {
    Device {
        encoder: true,
        recorded: true,
        submitted: true,
        shown: device.shown + 1,
        ..device
    }
}

pub(crate) proof fn lemma_canvas_frame<F, P>(device: Device, images: Seq<u64>, footprint: Footprint)
    requires
        device.surface matches Some(surface) && surface.render_attachment,
        !device.acquired,
        !device.encoder,
        device.drawn == Some(RenderTarget::NewTexture),
        device.canvas.pipeline,
        device.canvas.bind_group,
        device.canvas.vertex_buffer,
    ensures
        device.ready_for_all(images, canvas_frame::<F, P>(footprint)),
        device.after_all(images, canvas_frame::<F, P>(footprint)) == (
        if footprint.is_past_canvas() {
            device
        } else {
            shown(device)
        }),
{
    if footprint.is_past_canvas() {
        reveal(Device::ready_for_all);
        lemma_steps(device, images, canvas_frame::<F, P>(footprint), 0);
    } else {
        let c1 = Command::<F, P>::AcquireSurfaceTexture;
        let c2 = Command::<F, P>::CreateCommandEncoder { label: "Surface Blit" };
        let c3 = Command::<F, P>::RenderPass(canvas_pass());
        let c4 = Command::<F, P>::Submit;
        lemma_single(device, images, c1);
        lemma_next(device, images, seq![c1], seq![c1, c2]);
        lemma_next(device, images, seq![c1, c2], seq![c1, c2, c3]);
        lemma_next(device, images, seq![c1, c2, c3], seq![c1, c2, c3, c4]);
        lemma_next(device, images, seq![c1, c2, c3, c4], seq![c1, c2, c3, c4, Command::Present]);
    }
}

pub(crate) proof fn lemma_blit_frame<F, P>(device: Device, images: Seq<u64>)
    requires
        device.surface matches Some(surface) && surface.format == TextureFormat::Rgba8Unorm
            && surface.render_attachment && device.target == Some(target_texture(surface.size)),
        device.blitter == TextureFormat::Rgba8Unorm,
        !device.acquired,
        !device.encoder,
        device.target_locked,
        device.drawn == Some(RenderTarget::SurfaceTarget),
    ensures
        device.ready_for_all(images, blit_frame::<F, P>()),
        device.after_all(images, blit_frame::<F, P>()) == shown(device),
{
    let c1 = Command::<F, P>::AcquireSurfaceTexture;
    let c2 = Command::<F, P>::CreateCommandEncoder { label: "Surface Blit" };
    let c3 = Command::<F, P>::Blit;
    let c4 = Command::<F, P>::Submit;
    lemma_single(device, images, c1);
    lemma_next(device, images, seq![c1], seq![c1, c2]);
    lemma_next(device, images, seq![c1, c2], seq![c1, c2, c3]);
    lemma_next(device, images, seq![c1, c2, c3], seq![c1, c2, c3, c4]);
    lemma_next(device, images, seq![c1, c2, c3, c4], seq![c1, c2, c3, c4, Command::Present]);
}

/// A new texture was made and the scene was drawn into it.
pub open spec fn drawn_anew(
    device: Device,
    images: Seq<u64>,
    texture: TextureDescriptor,
) -> Device {
    Device {
        texture: Some(texture),
        view: Some(texture),
        overrides: device.overrides.remove_keys(images.to_set()),
        drawn: Some(RenderTarget::NewTexture),
        ..device
    }
}

pub(crate) proof fn lemma_draw_anew<F, P>(
    device: Device,
    images: Seq<u64>,
    texture: TextureDescriptor,
    params: RenderParams,
    overrides: usize,
)
    requires
        images.len() == overrides,
        !device.renderer_locked,
        texture.usage.storage_binding,
        texture.format == TextureFormat::Rgba8Unorm,
        texture.size.width >= params.width,
        texture.size.height >= params.height,
    ensures
        ({
            let commands = new_texture::<F, P>(texture) + draw_scene::<F, P>(
                RenderTarget::NewTexture,
                params,
                overrides,
            );
            &&& device.ready_for_all(images, commands)
            &&& device.after_all(images, commands) == drawn_anew(device, images, texture)
            &&& device.after_first(images, commands, (overrides + 3) as nat).overrides
                == installed(device.overrides, images, overrides as nat)
            &&& device.after_first(images, commands, (overrides + 3) as nat).renderer_locked
            &&& device.after_first(images, commands, (overrides + 3) as nat).shown == device.shown
            &&& device.after_first(images, commands, (overrides + 3) as nat).acquired
                == device.acquired
            &&& device.after_first(images, commands, (overrides + 3) as nat).target
                == device.target
        }),
{
    let target = RenderTarget::NewTexture;
    let draw = draw_scene::<F, P>(target, params, overrides);
    let create = new_texture::<F, P>(texture);
    lemma_new_texture::<F, P>(device, images, texture);
    let made = device.after_all(images, create);
    lemma_draw_scene::<F, P>(made, images, target, params, overrides);
    lemma_both_parts(device, images, create, draw);
    lemma_draw_scene_parts::<F, P>(target, params, overrides);
    lemma_second_part(device, images, create, draw, (overrides + 1) as nat);
}

/// The state after what a request does before it knows anything.
pub open spec fn opened(device: Device, request: Request, images: Seq<u64>) -> Device {
    match request {
        Request::ViewModePixels { artboard_dimensions, .. } => Device {
            capabilities_known: true,
            ..drawn_anew(device, images, artboard_texture(artboard_dimensions))
        },
        Request::Scene { .. } => Device { target_locked: true, ..device },
        Request::Texture { size, .. } => drawn_anew(device, images, output_texture(size)),
    }
}

pub(crate) proof fn lemma_opening<F, P>(device: Device, request: Request, images: Seq<u64>)
    requires
        images.len() == request.overrides(),
        !device.renderer_locked,
        !device.target_locked,
    ensures
        device.ready_for_all(images, opening::<F, P>(request)),
        device.after_all(images, opening::<F, P>(request)) == opened(device, request, images),
{
    match request {
        Request::ViewModePixels { artboard_dimensions, footprint, background, overrides } => {
            let texture = artboard_texture(artboard_dimensions);
            let params = params_over_opaque(artboard_size(artboard_dimensions), background);
            let draw = draw_scene::<F, P>(RenderTarget::NewTexture, params, overrides);
            let first = new_texture::<F, P>(texture) + draw;
            lemma_draw_anew::<F, P>(device, images, texture, params, overrides);
            lemma_next(device, images, first, first + seq![Command::QueryCapabilities]);
        },
        Request::Scene { .. } => {
            lemma_single(device, images, Command::<F, P>::LockTarget);
        },
        Request::Texture { size, background, overrides } => {
            let params = params_over(size, background);
            lemma_draw_anew::<F, P>(device, images, output_texture(size), params, overrides);
        },
    }
}

/// The state once the surface has a target of `size` and the adapter was asked.
pub open spec fn targeted(device: Device, size: UVec2, kept: Option<UVec2>) -> Device {
    Device { capabilities_known: true, ..prepared(device, size, kept) }
}

pub(crate) proof fn lemma_after_target<F, P>(
    device: Device,
    request: Request,
    images: Seq<u64>,
    size: UVec2,
    kept: Option<UVec2>,
)
    requires
        request matches Request::Scene { size: asked, .. } && asked == size,
        device.target_locked,
        device.target == described(kept),
    ensures
        device.ready_for_all(images, after_target::<F, P>(request, kept)),
        device.after_all(images, after_target::<F, P>(request, kept)) == targeted(
            device,
            size,
            kept,
        ),
{
    let prepare = prepare_target::<F, P>(size, kept);
    lemma_prepare_target::<F, P>(device, images, size, kept);
    lemma_next(device, images, prepare, prepare + seq![Command::QueryCapabilities]);
}

/// What a surface is set up with for a frame.
pub open spec fn set_up(size: UVec2) -> SurfaceState {
    SurfaceState { size, format: TextureFormat::Rgba8Unorm, render_attachment: true }
}

/// The state before a texture of the surface is acquired.
pub open spec fn about_to_acquire(device: Device, request: Request, images: Seq<u64>) -> Device {
    match request {
        Request::ViewModePixels { footprint, .. } => Device {
            surface: Some(set_up(footprint.resolution)),
            canvas: all_parts(),
            ..device
        },
        Request::Scene { size, .. } => Device {
            surface: Some(set_up(size)),
            overrides: device.overrides.remove_keys(images.to_set()),
            drawn: Some(RenderTarget::SurfaceTarget),
            ..device
        },
        Request::Texture { .. } => device,
    }
}

/// The commands from the adapter's answer to where a texture of the surface is acquired.
pub open spec fn until_acquiring<F, P>(request: Request, capabilities: Capabilities<F, P>) -> Seq<
    Command<F, P>,
> {
    match request {
        Request::ViewModePixels { footprint, .. } => {
            seq![
                Command::ConfigureSurface(
                    surface_configuration(
                        footprint.resolution,
                        capabilities.present_modes[0],
                        true,
                    ),
                ),
            ] + build_canvas_pipeline(footprint, capabilities.formats[0])
        },
        Request::Scene { size, background, overrides } => {
            seq![
                Command::ConfigureSurface(
                    surface_configuration(size, capabilities.present_modes[0], false),
                ),
            ] + draw_scene(
                RenderTarget::SurfaceTarget,
                params_over_opaque(size, background),
                overrides,
            )
        },
        Request::Texture { .. } => seq![],
    }
}

/// What a request needs once the adapter has answered.
pub open spec fn answered(device: Device, request: Request) -> bool {
    &&& device.capabilities_known
    &&& !device.acquired
    &&& !device.encoder
    &&& !device.renderer_locked
    &&& match request {
        Request::ViewModePixels { .. } => {
            &&& device.view matches Some(view) && view.usage.texture_binding
            &&& device.drawn == Some(RenderTarget::NewTexture)
        },
        Request::Scene { size, .. } => {
            &&& device.target_locked
            &&& device.target == Some(target_texture(size))
            &&& device.blitter == TextureFormat::Rgba8Unorm
        },
        Request::Texture { .. } => false,
    }
}

pub(crate) proof fn lemma_until_acquiring<F, P>(
    device: Device,
    request: Request,
    images: Seq<u64>,
    capabilities: Capabilities<F, P>,
)
    requires
        images.len() == request.overrides(),
        answered(device, request),
    ensures
        ({
            let commands = until_acquiring(request, capabilities);
            &&& device.ready_for_all(images, commands)
            &&& device.after_all(images, commands) == about_to_acquire(device, request, images)
            &&& request matches Request::Scene { size, overrides, .. } ==> device.after_first(
                images,
                commands,
                (overrides + 2) as nat,
            ) == covered(
                Device {
                    surface: Some(set_up(size)),
                    ..device
                },
                images,
            )
        }),
{
    match request {
        Request::ViewModePixels { footprint, .. } => {
            let format = capabilities.formats[0];
            let configure = Command::<F, P>::ConfigureSurface(
                surface_configuration(footprint.resolution, capabilities.present_modes[0], true),
            );
            lemma_single(device, images, configure);
            let configured = device.after(images, configure);
            lemma_build_canvas_pipeline::<F, P>(configured, images, footprint, format);
            lemma_both_parts(
                device,
                images,
                seq![configure],
                build_canvas_pipeline(footprint, format),
            );
        },
        Request::Scene { size, background, overrides } => {
            let configure = Command::<F, P>::ConfigureSurface(
                surface_configuration(size, capabilities.present_modes[0], false),
            );
            let target = RenderTarget::SurfaceTarget;
            let params = params_over_opaque(size, background);
            let draw = draw_scene::<F, P>(target, params, overrides);
            lemma_single(device, images, configure);
            let configured = device.after(images, configure);
            lemma_draw_scene::<F, P>(configured, images, target, params, overrides);
            lemma_both_parts(device, images, seq![configure], draw);
            lemma_draw_scene_parts::<F, P>(target, params, overrides);
            lemma_second_part(device, images, seq![configure], draw, (overrides + 1) as nat);
        },
        Request::Texture { .. } => {},
    }
}

pub(crate) proof fn lemma_after_capabilities<F, P>(
    device: Device,
    request: Request,
    images: Seq<u64>,
    capabilities: Capabilities<F, P>,
)
    requires
        images.len() == request.overrides(),
        answered(device, request),
    ensures
        ({
            let commands = after_capabilities(request, capabilities);
            let last = about_to_acquire(device, request, images);
            &&& device.ready_for_all(images, commands)
            &&& device.after_all(images, commands) == (if shows(request) {
                shown(last)
            } else {
                last
            })
        }),
{
    let first = until_acquiring(request, capabilities);
    lemma_until_acquiring(device, request, images, capabilities);
    let last = about_to_acquire(device, request, images);
    match request {
        Request::ViewModePixels { footprint, .. } => {
            lemma_canvas_frame::<F, P>(last, images, footprint);
            lemma_both_parts(device, images, first, canvas_frame::<F, P>(footprint));
        },
        Request::Scene { .. } => {
            lemma_blit_frame::<F, P>(last, images);
            lemma_both_parts(device, images, first, blit_frame::<F, P>());
        },
        Request::Texture { .. } => {},
    }
}

/// The state once the target that the surface keeps is known and dealt with, or not.
pub open spec fn reached_target<F, P, E>(
    progress: Progress<F, P, E>,
    images: Seq<u64>,
    device: Device,
) -> Device {
    let first = opened(device, progress.request, images);
    match (progress.request, progress.kept) {
        (Request::Scene { size, .. }, Some(kept)) => targeted(first, size, kept),
        _ => first,
    }
}

/// The state once all that is decided went well.
pub open spec fn reached<F, P, E>(
    progress: Progress<F, P, E>,
    images: Seq<u64>,
    device: Device,
) -> Device {
    let first = reached_target(progress, images, device);
    let last = about_to_acquire(first, progress.request, images);
    if progress.capabilities is None {
        first
    } else if shows(progress.request) {
        shown(last)
    } else {
        last
    }
}

/// The commands before the adapter's answer.
pub open spec fn until_capabilities<F, P, E>(progress: Progress<F, P, E>) -> Seq<Command<F, P>> {
    program(progress.request, progress.kept, None)
}

pub(crate) proof fn lemma_until_capabilities<F, P, E>(
    progress: Progress<F, P, E>,
    images: Seq<u64>,
    overrides: Map<u64, int>,
    target: Option<UVec2>,
)
    requires
        frame_of(progress, images, target),
    ensures
        ({
            let device = Device::before_frame(overrides, target);
            &&& device.ready_for_all(images, until_capabilities(progress))
            &&& device.after_all(images, until_capabilities(progress)) == reached_target(
                progress,
                images,
                device,
            )
        }),
{
    let device = Device::before_frame(overrides, target);
    let request = progress.request;
    let first = opening::<F, P>(request);
    lemma_opening::<F, P>(device, request, images);
    match (request, progress.kept) {
        (Request::Scene { size, .. }, Some(kept)) => {
            let locked = opened(device, request, images);
            lemma_after_target::<F, P>(locked, request, images, size, kept);
            lemma_both_parts(device, images, first, after_target::<F, P>(request, kept));
            assert(until_capabilities(progress) =~= first + after_target::<F, P>(request, kept));
        },
        _ => {
            assert(until_capabilities(progress) =~= first);
        },
    }
}

pub(crate) proof fn lemma_program<F, P, E>(
    progress: Progress<F, P, E>,
    images: Seq<u64>,
    overrides: Map<u64, int>,
    target: Option<UVec2>,
)
    requires
        frame_of(progress, images, target),
    ensures
        ({
            let device = Device::before_frame(overrides, target);
            &&& device.ready_for_all(images, progress.program())
            &&& device.after_all(images, progress.program()) == reached(
                progress,
                images,
                device,
            )
        }),
{
    let device = Device::before_frame(overrides, target);
    let first = until_capabilities(progress);
    lemma_until_capabilities(progress, images, overrides, target);
    let middle = reached_target(progress, images, device);
    match progress.capabilities {
        Some(capabilities) => {
            let rest = after_capabilities(progress.request, capabilities);
            lemma_after_capabilities(middle, progress.request, images, capabilities);
            lemma_both_parts(device, images, first, rest);
            assert(progress.program() =~= first + rest);
        },
        None => {},
    }
}

/// Only the drawing itself can fail where a scene is drawn.
pub(crate) proof fn lemma_fallible_in_draw_scene<F, P>(
    target: RenderTarget,
    params: RenderParams,
    overrides: usize,
    i: int,
)
    requires
        0 <= i < draw_scene::<F, P>(target, params, overrides).len(),
    ensures
        draw_scene::<F, P>(target, params, overrides)[i].is_fallible() <==> i == overrides + 1,
        draw_scene::<F, P>(target, params, overrides)[overrides + 1] == (
        Command::<F, P>::RenderScene { target, params }),
        draw_scene::<F, P>(target, params, overrides).len() == 2 * overrides + 3,
{
    let commands = draw_scene::<F, P>(target, params, overrides);
    let n = overrides as int;
    if i == 0 {
    } else if i < 1 + n {
        assert(commands[i] == install_overrides::<F, P>(overrides)[i - 1]);
    } else if i == 1 + n {
    } else if i < 2 + 2 * n {
        assert(commands[i] == remove_overrides::<F, P>(overrides)[i - 2 - n]);
    }
}

/// Where in a frame something can fail: where the scene is drawn, and where a texture of the
/// surface is acquired.
pub(crate) proof fn lemma_fallible<F, P, E>(progress: Progress<F, P, E>, i: int)
    requires
        progress.valid(),
        0 <= i < progress.program().len(),
        progress.program()[i].is_fallible(),
    ensures
        progress.program()[i] is RenderScene ==> match progress.request {
            Request::Scene { overrides, .. } => progress.capabilities is Some && i
                == until_capabilities(progress).len() + overrides + 2,
            _ => i == progress.request.overrides() + 3 && i < until_capabilities(progress).len(),
        },
        progress.program()[i] is AcquireSurfaceTexture ==> {
            &&& progress.capabilities matches Some(capabilities) && i == until_capabilities(
                progress,
            ).len() + until_acquiring(progress.request, capabilities).len()
            &&& shows(progress.request)
        },
{
    let all = progress.program();
    let first = until_capabilities(progress);
    match progress.request {
        Request::ViewModePixels { artboard_dimensions, footprint, background, overrides } => {
            let target = RenderTarget::NewTexture;
            let params = params_over_opaque(artboard_size(artboard_dimensions), background);
            let draw = draw_scene::<F, P>(target, params, overrides);
            if 2 <= i < 2 + draw.len() {
                assert(all[i] == draw[i - 2]);
                lemma_fallible_in_draw_scene::<F, P>(target, params, overrides, i - 2);
            } else if i >= first.len() {
                let capabilities = progress.capabilities.unwrap();
                let rest = after_capabilities(progress.request, capabilities);
                assert(all[i] == rest[i - first.len()]);
                assert(until_acquiring(progress.request, capabilities).len() == 10);
            }
        },
        Request::Scene { size, background, overrides } => {
            let target = RenderTarget::SurfaceTarget;
            let params = params_over_opaque(size, background);
            let draw = draw_scene::<F, P>(target, params, overrides);
            if i >= first.len() {
                let capabilities = progress.capabilities.unwrap();
                let rest = after_capabilities(progress.request, capabilities);
                let j = i - first.len();
                assert(all[i] == rest[j]);
                if 1 <= j < 1 + draw.len() {
                    assert(rest[j] == draw[j - 1]);
                    lemma_fallible_in_draw_scene::<F, P>(target, params, overrides, j - 1);
                } else if j > draw.len() {
                    assert(rest[j] == blit_frame::<F, P>()[j - 1 - draw.len()]);
                }
            }
        },
        Request::Texture { size, background, overrides } => {
            let target = RenderTarget::NewTexture;
            let params = params_over(size, background);
            if i >= 2 {
                assert(all[i] == draw_scene::<F, P>(target, params, overrides)[i - 2]);
                lemma_fallible_in_draw_scene::<F, P>(target, params, overrides, i - 2);
            }
        },
    }
}

/// The state when the renderer is told to draw.
pub(crate) proof fn lemma_state_at_render<F, P, E>(
    progress: Progress<F, P, E>,
    images: Seq<u64>,
    overrides: Map<u64, int>,
    target: Option<UVec2>,
    i: int,
)
    requires
        frame_of(progress, images, target),
        0 <= i < progress.program().len(),
        progress.program()[i] is RenderScene,
    ensures
        ({
            let state = Device::before_frame(overrides, target).after_first(
                images,
                progress.program(),
                i as nat,
            );
            &&& state.overrides == installed(overrides, images, images.len())
            &&& state.renderer_locked
            &&& !state.acquired
            &&& state.shown == 0
            &&& state.target == described(target_after(progress.request, target))
        }),
{
    let device = Device::before_frame(overrides, target);
    let all = progress.program();
    let first = until_capabilities(progress);
    lemma_fallible(progress, i);
    match progress.request {
        Request::ViewModePixels { artboard_dimensions, footprint, background, overrides: n } => {
            let texture = artboard_texture(artboard_dimensions);
            let params = params_over_opaque(artboard_size(artboard_dimensions), background);
            lemma_draw_anew::<F, P>(device, images, texture, params, n);
            let part = new_texture::<F, P>(texture) + draw_scene::<F, P>(
                RenderTarget::NewTexture,
                params,
                n,
            );
            assert(part.len() > i) by {
                lemma_draw_scene_parts::<F, P>(RenderTarget::NewTexture, params, n);
            }
            assert forall|j: int| 0 <= j < i implies all[j] == part[j] by {
                assert(all[j] == opening::<F, P>(progress.request)[j]);
            }
            lemma_same_start(device, images, all, part, i as nat);
        },
        Request::Scene { size, background, overrides: n } => {
            let capabilities = progress.capabilities.unwrap();
            let rest = after_capabilities(progress.request, capabilities);
            let part = until_acquiring(progress.request, capabilities);
            lemma_until_capabilities(progress, images, overrides, target);
            let middle = reached_target(progress, images, device);
            lemma_until_acquiring(middle, progress.request, images, capabilities);
            assert(all =~= first + rest);
            lemma_second_part(device, images, first, rest, (n + 2) as nat);
            assert(part.len() > n + 2) by {
                lemma_draw_scene_parts::<F, P>(
                    RenderTarget::SurfaceTarget,
                    params_over_opaque(size, background),
                    n,
                );
            }
            lemma_same_start(middle, images, rest, part, (n + 2) as nat);
        },
        Request::Texture { size, background, overrides: n } => {
            let texture = output_texture(size);
            lemma_draw_anew::<F, P>(device, images, texture, params_over(size, background), n);
            assert(all =~= opening::<F, P>(progress.request));
        },
    }
}

/// The state when a texture of the surface is acquired.
pub(crate) proof fn lemma_state_at_acquire<F, P, E>(
    progress: Progress<F, P, E>,
    images: Seq<u64>,
    overrides: Map<u64, int>,
    target: Option<UVec2>,
    i: int,
)
    requires
        frame_of(progress, images, target),
        0 <= i < progress.program().len(),
        progress.program()[i] is AcquireSurfaceTexture,
    ensures
        ({
            let state = Device::before_frame(overrides, target).after_first(
                images,
                progress.program(),
                i as nat,
            );
            &&& state.overrides == overrides.remove_keys(images.to_set())
            &&& !state.renderer_locked
            &&& !state.acquired
            &&& state.shown == 0
            &&& state.target == described(target_after(progress.request, target))
        }),
{
    let device = Device::before_frame(overrides, target);
    let all = progress.program();
    let first = until_capabilities(progress);
    lemma_fallible(progress, i);
    let capabilities = progress.capabilities.unwrap();
    let rest = after_capabilities(progress.request, capabilities);
    let part = until_acquiring(progress.request, capabilities);
    lemma_until_capabilities(progress, images, overrides, target);
    let middle = reached_target(progress, images, device);
    lemma_until_acquiring(middle, progress.request, images, capabilities);
    assert(all =~= first + rest);
    lemma_second_part(device, images, first, rest, part.len());
    lemma_same_start(middle, images, rest, part, part.len());
}

pub(crate) proof fn lemma_creates_no_texture<F, P, E>(progress: Progress<F, P, E>)
    requires
        progress.valid(),
        progress.request matches Request::Scene { size, .. } && (progress.kept matches Some(
            kept,
        ) ==> kept == Some(size)),
    ensures
        forall|i: int|
            0 <= i < progress.program().len() ==> !(#[trigger] progress.program()[i] is
                CreateTexture),
{
    let all = progress.program();
    let first = until_capabilities(progress);
    if let Request::Scene { size, background, overrides } = progress.request {
        let target = RenderTarget::SurfaceTarget;
        let params = params_over_opaque(size, background);
        let draw = draw_scene::<F, P>(target, params, overrides);
        let n = overrides as int;
        assert forall|i: int| 0 <= i < all.len() implies !(#[trigger] all[i] is CreateTexture) by {
            if i >= first.len() {
                let capabilities = progress.capabilities.unwrap();
                let rest = after_capabilities(progress.request, capabilities);
                let j = i - first.len();
                assert(all[i] == rest[j]);
                if 1 <= j < 1 + draw.len() {
                    assert(rest[j] == draw[j - 1]);
                    if 1 < j <= 1 + n {
                        assert(draw[j - 1] == install_overrides::<F, P>(overrides)[j - 2]);
                    } else if 3 + n <= j <= 2 + 2 * n {
                        assert(draw[j - 1] == remove_overrides::<F, P>(overrides)[j - 3 - n]);
                    }
                } else if j > draw.len() {
                    assert(rest[j] == blit_frame::<F, P>()[j - 1 - draw.len()]);
                }
            }
        }
    }
}

/// The one place where a frame draws.
pub(crate) proof fn lemma_only_scene<F, P, E>(progress: Progress<F, P, E>, i: int)
    requires
        progress.valid(),
        0 <= i < progress.program().len(),
        progress.program()[i] is RenderScene,
    ensures
        progress.program()[i] == (Command::<F, P>::RenderScene {
            target: render_target(progress.request),
            params: render_params(progress.request),
        }),
{
    let all = progress.program();
    let first = until_capabilities(progress);
    let target = render_target(progress.request);
    let params = render_params(progress.request);
    let n = progress.request.overrides();
    let draw = draw_scene::<F, P>(target, params, n);
    lemma_fallible(progress, i);
    lemma_fallible_in_draw_scene::<F, P>(target, params, n, 0);
    match progress.request {
        Request::Scene { .. } => {
            let rest = after_capabilities(progress.request, progress.capabilities.unwrap());
            assert(all[i] == rest[n + 2]);
            assert(rest[n + 2] == draw[n + 1]);
        },
        _ => {
            assert(all[i] == opening::<F, P>(progress.request)[i]);
            assert(opening::<F, P>(progress.request)[i] == draw[n + 1]);
        },
    }
}

/// A frame starts as a valid one.
pub(crate) proof fn lemma_start_is_valid<F, P, E>(request: Request)
    ensures
        Progress::<F, P, E>::start(request).valid(),
{
    let start = Progress::<F, P, E>::start(request);
    assert(start.program() =~= opening::<F, P>(request));
}

/// The number of commands that are decided.
pub(crate) proof fn lemma_program_length<F, P, E>(progress: Progress<F, P, E>)
    requires
        progress.valid(),
    ensures
        ({
            let kept = match progress.kept {
                Some(kept) => kept,
                None => None,
            };
            &&& progress.program().len() <= frame_length(progress.request, kept)
            &&& (progress.kept is Some <==> progress.request is Scene) && (
            progress.capabilities is Some <==> !(progress.request is Texture))
                ==> progress.program().len() == frame_length(progress.request, kept)
        }),
{
}

/// Where a frame into a texture draws its scene.
pub(crate) proof fn lemma_scene_is_drawn<F, P, E>(progress: Progress<F, P, E>)
    requires
        progress.valid(),
        progress.request is Texture,
    ensures
        progress.request.overrides() + 3 < progress.program().len(),
        progress.program()[progress.request.overrides() + 3] is RenderScene,
{
    if let Request::Texture { size, background, overrides } = progress.request {
        let target = RenderTarget::NewTexture;
        let params = params_over(size, background);
        lemma_fallible_in_draw_scene::<F, P>(target, params, overrides, 0);
        assert(progress.program()[overrides + 3] == draw_scene::<F, P>(
            target,
            params,
            overrides,
        )[overrides + 1]);
    }
}

/// A frame into a texture creates that texture first and no other.
pub(crate) proof fn lemma_one_texture<F, P, E>(progress: Progress<F, P, E>, i: int)
    requires
        progress.valid(),
        progress.request is Texture,
        0 <= i < progress.program().len(),
    ensures
        progress.program()[i] is CreateTexture <==> i == 0,
{
    if let Request::Texture { size, background, overrides } = progress.request {
        let draw = draw_scene::<F, P>(
            RenderTarget::NewTexture,
            params_over(size, background),
            overrides,
        );
        let n = overrides as int;
        if i >= 2 {
            let j = i - 2;
            assert(progress.program()[i] == draw[j]);
            if 1 <= j <= n {
                assert(draw[j] == install_overrides::<F, P>(overrides)[j - 1]);
            } else if n + 2 <= j <= 2 * n + 1 {
                assert(draw[j] == remove_overrides::<F, P>(overrides)[j - 2 - n]);
            }
        }
    }
}

/// What a command of a frame has to do with the locks and with the kept target.
pub(crate) proof fn lemma_locking<F, P, E>(progress: Progress<F, P, E>, i: int)
    requires
        progress.valid(),
        0 <= i < progress.program().len(),
    ensures
        ({
            let command = progress.program()[i];
            &&& command is LockRenderer <==> i == lock_at(progress)
            &&& command is UnlockRenderer <==> i == unlock_at(progress)
            &&& (command is OverrideImage || command is RenderScene) <==> lock_at(progress) < i
                < unlock_at(progress)
            &&& command is RenderScene <==> i == draw_at(progress)
            &&& lock_at(progress) < i < draw_at(progress) ==> command == (Command::<
                F,
                P,
            >::OverrideImage {
                entry: (i - lock_at(progress) - 1) as usize,
                texture: Some(whole_texture()),
            })
            &&& draw_at(progress) < i < unlock_at(progress) ==> command == (Command::<
                F,
                P,
            >::OverrideImage { entry: (i - draw_at(progress) - 1) as usize, texture: None })
            &&& command is LockTarget <==> progress.request is Scene && i == 0
            &&& command is StoreTarget <==> i == 3 && (progress.request matches Request::Scene {
                size,
                ..
            } && progress.kept matches Some(kept) && kept != Some(size))
            &&& progress.request matches Request::Scene { size, .. } ==> (
            command matches Command::StoreTarget(stored) ==> stored == size)
        }),
{
    let all = progress.program();
    let first = until_capabilities(progress);
    let n = progress.request.overrides() as int;
    let target = render_target(progress.request);
    let params = render_params(progress.request);
    let draw = draw_scene::<F, P>(target, params, progress.request.overrides());
    let lock = lock_at(progress);
    assert(draw.len() == 2 * n + 3);
    assert(first.len() <= all.len());
    if lock <= i <= unlock_at(progress) {
        let j = i - lock;
        assert(all[i] == draw[j]) by {
            match progress.request {
                Request::Scene { .. } => {
                    let rest = after_capabilities(
                        progress.request,
                        progress.capabilities.unwrap(),
                    );
                    assert(all[i] == rest[j + 1]);
                },
                _ => {
                    assert(all[i] == opening::<F, P>(progress.request)[i]);
                },
            }
        }
        if 1 <= j <= n {
            assert(draw[j] == install_overrides::<F, P>(progress.request.overrides())[j - 1]);
        } else if n + 2 <= j <= 2 * n + 1 {
            assert(draw[j] == remove_overrides::<F, P>(progress.request.overrides())[j - 2 - n]);
        }
    } else if i >= first.len() {
        let rest = after_capabilities(progress.request, progress.capabilities.unwrap());
        assert(all[i] == rest[i - first.len()]);
    }
}

} // verus!
