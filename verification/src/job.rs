use crate::command::{Command, Event, RenderTarget};
use crate::descriptor::{
    artboard_texture, output_texture, params_over, params_over_opaque, surface_configuration,
    target_texture, whole_texture, Capabilities, RenderParams, Rgba8, SurfaceCapabilities,
    SurfaceConfiguration, TexelCopy, TextureDescriptor,
};
use crate::geometry::{unsigned_reading, IVec2, UVec2};
use crate::pipeline::{
    canvas_bind_group, canvas_bindings, canvas_pass, canvas_pipeline, linear_sampler,
    shader_module, transform_buffer, vertex_buffer, BindGroup, BindGroupLayout, BufferDescriptor,
    Footprint, RenderPass, RenderPipeline, SamplerDescriptor, ShaderModule, ShaderStage,
};
use vstd::prelude::*;

verus! {

/// A frame to draw. `overrides` is the number of entries of the render context, each an image
/// and the texture that stands for it while the scene is drawn.
#[derive(Clone, Copy, Debug, PartialEq, Eq)]
pub enum Request {
    /// Draw an artboard pixel for pixel, then scale it onto a surface.
    ViewModePixels {
        artboard_dimensions: IVec2,
        footprint: Footprint,
        background: Rgba8,
        overrides: usize,
    },
    /// Draw a scene onto a surface of `size`.
    Scene { size: UVec2, background: Rgba8, overrides: usize },
    /// Draw a scene into a texture of its own.
    Texture { size: UVec2, background: Rgba8, overrides: usize },
}

impl Request {
    /// The number of entries of the render context.
    pub open spec fn overrides(self) -> usize {
        match self {
            Request::ViewModePixels { overrides, .. } => overrides,
            Request::Scene { overrides, .. } => overrides,
            Request::Texture { overrides, .. } => overrides,
        }
    }
}

// What a frame asks the GPU to do.

/// Each entry's texture stands for its image, in the order of the entries.
pub open spec fn install_overrides<F, P>(overrides: usize) -> Seq<Command<F, P>> {
    Seq::new(
        overrides as nat,
        |i: int| Command::OverrideImage { entry: i as usize, texture: Some(whole_texture()) },
    )
}

/// Each entry's image stands for itself again, in the order of the entries.
pub open spec fn remove_overrides<F, P>(overrides: usize) -> Seq<Command<F, P>> {
    Seq::new(
        overrides as nat,
        |i: int| Command::OverrideImage { entry: i as usize, texture: None },
    )
}

/// The renderer draws the scene while the textures stand for the images.
pub open spec fn draw_scene<F, P>(
    target: RenderTarget,
    params: RenderParams,
    overrides: usize,
) -> Seq<Command<F, P>> {
    seq![Command::LockRenderer] + install_overrides(overrides) + seq![
        Command::RenderScene { target, params },
    ] + remove_overrides(overrides) + seq![Command::UnlockRenderer]
}

/// Makes a target texture for the surface, unless the one that is kept has the right size.
pub open spec fn prepare_target<F, P>(size: UVec2, kept: Option<UVec2>) -> Seq<Command<F, P>> {
    if kept == Some(size) {
        seq![]
    } else {
        seq![
            Command::CreateTexture(target_texture(size)),
            Command::CreateTextureView,
            Command::StoreTarget(size),
        ]
    }
}

/// Shows the target texture on the surface.
pub open spec fn blit_frame<F, P>() -> Seq<Command<F, P>> {
    seq![
        Command::AcquireSurfaceTexture,
        Command::CreateCommandEncoder { label: "Surface Blit" },
        Command::Blit,
        Command::Submit,
        Command::Present,
    ]
}

/// Everything that drawing an artboard onto a canvas needs.
pub open spec fn build_canvas_pipeline<F, P>(
    footprint: Footprint,
    format: F,
) -> Seq<Command<F, P>> {
    seq![
        Command::CreateShaderModule(shader_module(ShaderStage::Vertex)),
        Command::CreateShaderModule(shader_module(ShaderStage::Fragment)),
        Command::CreateBindGroupLayout(canvas_bindings()),
        Command::CreatePipelineLayout,
        Command::CreateRenderPipeline(canvas_pipeline(format)),
        Command::CreateBuffer(transform_buffer(footprint.transform)),
        Command::CreateSampler(linear_sampler()),
        Command::CreateBuffer(vertex_buffer()),
        Command::CreateBindGroup(canvas_bind_group()),
    ]
}

/// Shows the artboard on the surface, unless it lies past the canvas.
pub open spec fn canvas_frame<F, P>(footprint: Footprint) -> Seq<Command<F, P>> {
    if footprint.is_past_canvas() {
        seq![]
    } else {
        seq![
            Command::AcquireSurfaceTexture,
            Command::CreateCommandEncoder { label: "Surface Blit" },
            Command::RenderPass(canvas_pass()),
            Command::Submit,
            Command::Present,
        ]
    }
}

/// A new texture and its view.
pub open spec fn new_texture<F, P>(texture: TextureDescriptor) -> Seq<Command<F, P>> {
    seq![Command::CreateTexture(texture), Command::CreateTextureView]
}

/// The size of an artboard's texture.
pub open spec fn artboard_size(dimensions: IVec2) -> UVec2 {
    UVec2 { x: unsigned_reading(dimensions.x), y: unsigned_reading(dimensions.y) }
}

/// What is done before anything is asked; the last command asks, unless the frame needs no
/// answer.
pub open spec fn opening<F, P>(request: Request) -> Seq<Command<F, P>> {
    match request {
        Request::ViewModePixels { artboard_dimensions, background, overrides, .. } => {
            new_texture(artboard_texture(artboard_dimensions)) + draw_scene(
                RenderTarget::NewTexture,
                params_over_opaque(artboard_size(artboard_dimensions), background),
                overrides,
            ) + seq![Command::QueryCapabilities]
        },
        Request::Scene { .. } => seq![Command::LockTarget],
        Request::Texture { size, background, overrides } => {
            new_texture(output_texture(size)) + draw_scene(
                RenderTarget::NewTexture,
                params_over(size, background),
                overrides,
            )
        },
    }
}

/// What is done once it is known which target texture the surface keeps.
pub open spec fn after_target<F, P>(request: Request, kept: Option<UVec2>) -> Seq<
    Command<F, P>,
> {
    match request {
        Request::Scene { size, .. } => {
            prepare_target(size, kept) + seq![Command::QueryCapabilities]
        },
        _ => seq![],
    }
}

/// What is done once it is known what the adapter can do with the surface.
pub open spec fn after_capabilities<F, P>(
    request: Request,
    capabilities: Capabilities<F, P>,
) -> Seq<Command<F, P>> {
    match request {
        Request::ViewModePixels { footprint, .. } => {
            seq![
                Command::ConfigureSurface(
                    surface_configuration(
                        footprint.resolution,
                        capabilities.present_modes[0],
                        true,
                    ),
                ),
            ] + build_canvas_pipeline(footprint, capabilities.formats[0]) + canvas_frame(
                footprint,
            )
        },
        Request::Scene { size, background, overrides } => {
            seq![
                Command::ConfigureSurface(
                    surface_configuration(size, capabilities.present_modes[0], false),
                ),
            ] + draw_scene(
                RenderTarget::SurfaceTarget,
                params_over_opaque(size, background),
                overrides,
            ) + blit_frame()
        },
        Request::Texture { .. } => seq![],
    }
}

/// All that a frame does, as far as the answers so far decide it.
pub open spec fn program<F, P>(
    request: Request,
    kept: Option<Option<UVec2>>,
    capabilities: Option<Capabilities<F, P>>,
) -> Seq<Command<F, P>> {
    opening(request) + match kept {
        Some(kept) => after_target(request, kept),
        None => seq![],
    } + match capabilities {
        Some(capabilities) => after_capabilities(request, capabilities),
        None => seq![],
    }
}

/// How far a frame is.
#[verifier::ext_equal]
pub struct Progress<F, P, E> {
    pub request: Request,
    /// The size of the target texture that the surface kept, once it is known.
    pub kept: Option<Option<UVec2>>,
    /// What the adapter can do with the surface, once it is known.
    pub capabilities: Option<Capabilities<F, P>>,
    /// How many commands have been performed.
    pub performed: nat,
    /// What the command that failed reported.
    pub failure: Option<E>,
}

/// Whether the lists of the adapter hold what the request takes from them.
pub open spec fn usable<F, P>(request: Request, capabilities: Capabilities<F, P>) -> bool {
    &&& capabilities.present_modes.len() > 0
    &&& request is ViewModePixels ==> capabilities.formats.len() > 0
}

impl<F, P, E> Progress<F, P, E> {
    /// The start of a frame.
    pub open spec fn start(request: Request) -> Self {
        Progress { request, kept: None, capabilities: None, performed: 0, failure: None }
    }

    /// All commands of the frame that are decided.
    pub open spec fn program(self) -> Seq<Command<F, P>> {
        program(self.request, self.kept, self.capabilities)
    }

    /// The commands that have been performed; the last one may have failed.
    pub open spec fn performed_commands(self) -> Seq<Command<F, P>> {
        self.program().take(self.performed as int)
    }

    /// Whether nothing is left to do.
    pub open spec fn is_finished(self) -> bool {
        self.failure is Some || self.performed == self.program().len()
    }

    /// The next command, if the frame goes on.
    pub open spec fn next_command(self) -> Option<Command<F, P>> {
        if self.is_finished() {
            None
        } else {
            Some(self.program()[self.performed as int])
        }
    }

    /// Whether `event` is an answer to the next command.
    pub open spec fn accepts(self, event: Event<F, P, E>) -> bool {
        match self.next_command() {
            None => false,
            Some(Command::LockTarget) => event is TargetLocked,
            Some(Command::QueryCapabilities) => {
                event matches Event::Capabilities(capabilities) && usable(
                    self.request,
                    capabilities@,
                )
            },
            Some(command) => event is Completed || (command.is_fallible() && event is Failed),
        }
    }

    /// The frame after `event`.
    pub open spec fn after(self, event: Event<F, P, E>) -> Self {
        let performed = self.performed + 1;
        match event {
            Event::Completed => Progress { performed, ..self },
            Event::TargetLocked(kept) => Progress { performed, kept: Some(kept), ..self },
            Event::Capabilities(capabilities) => {
                Progress { performed, capabilities: Some(capabilities@), ..self }
            },
            Event::Failed(error) => Progress { performed, failure: Some(error), ..self },
        }
    }

    /// What the frame returns once it is finished: the error of the command that failed, if one
    /// did.
    pub open spec fn result(self) -> Result<(), E> {
        match self.failure {
            Some(error) => Err(error),
            None => Ok(()),
        }
    }

    /// Whether the frame returns a texture: it drew a scene into a texture of its own and went
    /// well. The texture is the one that the frame created.
    pub open spec fn hands_out_texture(self) -> bool {
        self.request is Texture && self.is_finished() && self.result() is Ok
    }

    /// What every frame keeps: only what was asked is answered, in order, and nothing past a
    /// question is performed before it is answered.
    pub open spec fn valid(self) -> bool {
        &&& self.performed <= self.program().len()
        &&& self.kept is Some ==> self.request is Scene && self.performed >= 1
        &&& self.capabilities matches Some(capabilities) ==> {
            &&& !(self.request is Texture)
            &&& self.request is Scene ==> self.kept is Some
            &&& usable(self.request, capabilities)
            &&& self.performed >= program::<F, P>(self.request, self.kept, None).len()
        }
        &&& self.request is Scene && self.kept is None ==> self.performed == 0
        &&& !(self.request is Texture) && self.capabilities is None ==> self.performed
            < self.program().len()
        &&& self.failure is Some ==> self.performed > 0
            && self.program()[self.performed - 1].is_fallible()
    }
}

/// Whether the command asks for something that decides what comes next.
pub open spec fn is_question<F, P>(command: Command<F, P>) -> bool {
    command is LockTarget || command is QueryCapabilities
}

spec fn no_questions<F, P>(commands: Seq<Command<F, P>>) -> bool {
    forall|i: int| 0 <= i < commands.len() ==> !is_question(#[trigger] commands[i])
}

proof fn lemma_draw_scene_asks_nothing<F, P>(
    target: RenderTarget,
    params: RenderParams,
    overrides: usize,
)
    ensures
        no_questions(draw_scene::<F, P>(target, params, overrides)),
{
    let commands = draw_scene::<F, P>(target, params, overrides);
    let n = overrides as int;
    assert forall|i: int| 0 <= i < commands.len() implies !is_question(
        #[trigger] commands[i],
    ) by {
        if i == 0 {
        } else if i < 1 + n {
            assert(commands[i] == install_overrides::<F, P>(overrides)[i - 1]);
        } else if i == 1 + n {
        } else if i < 2 + 2 * n {
            assert(commands[i] == remove_overrides::<F, P>(overrides)[i - 2 - n]);
        }
    }
}

/// Only the last command of what is decided can be a question that is not answered yet, and
/// nothing that follows an answer is the same question again.
proof fn lemma_question_is_last<F, P, E>(progress: Progress<F, P, E>)
    requires
        progress.valid(),
        progress.next_command() matches Some(command) && is_question(command),
    ensures
        progress.capabilities is None,
        progress.performed + 1 == progress.program().len(),
        progress.next_command() == Some(Command::<F, P>::LockTarget) <==> progress.request is Scene
            && progress.kept is None,
        !(progress.request is Texture),
{
    let request = progress.request;
    let position = progress.performed as int;
    let first = opening::<F, P>(request);
    match request {
        Request::ViewModePixels { artboard_dimensions, footprint, background, overrides } => {
            let params = params_over_opaque(artboard_size(artboard_dimensions), background);
            let scene = draw_scene::<F, P>(RenderTarget::NewTexture, params, overrides);
            lemma_draw_scene_asks_nothing::<F, P>(RenderTarget::NewTexture, params, overrides);
            if position < first.len() {
                assert(progress.program()[position] == first[position]);
                if 2 <= position < 2 + scene.len() {
                    assert(first[position] == scene[position - 2]);
                }
            }
        },
        Request::Scene { size, background, overrides } => {
            let params = params_over_opaque(size, background);
            let scene = draw_scene::<F, P>(RenderTarget::SurfaceTarget, params, overrides);
            lemma_draw_scene_asks_nothing::<F, P>(RenderTarget::SurfaceTarget, params, overrides);
            if let Some(capabilities) = progress.capabilities {
                let rest = after_capabilities(request, capabilities);
                let offset = program::<F, P>(request, progress.kept, None).len();
                assert(progress.program()[position] == rest[position - offset]);
                if 1 <= position - offset < 1 + scene.len() {
                    assert(rest[position - offset] == scene[position - offset - 1]);
                }
            }
        },
        Request::Texture { size, background, overrides } => {
            let params = params_over(size, background);
            let scene = draw_scene::<F, P>(RenderTarget::NewTexture, params, overrides);
            lemma_draw_scene_asks_nothing::<F, P>(RenderTarget::NewTexture, params, overrides);
            if 2 <= position {
                assert(progress.program()[position] == scene[position - 2]);
            }
        },
    }
}

/// Whatever answers come, a frame stays one that keeps the rules of [`Progress::valid`]. Each
/// answer counts one command as performed, and none takes back a command that was decided.
pub proof fn law_frames_only_grow<F, P, E>(progress: Progress<F, P, E>, event: Event<F, P, E>)
    requires
        progress.valid(),
        progress.accepts(event),
    ensures
        progress.after(event).valid(),
        progress.after(event).performed == progress.performed + 1,
        progress.program().is_prefix_of(progress.after(event).program()),
{
    let after = progress.after(event);
    if is_question(progress.next_command().unwrap()) {
        lemma_question_is_last(progress);
        assert(after.program() =~= progress.program() + match event {
            Event::TargetLocked(kept) => after_target::<F, P>(progress.request, kept),
            Event::Capabilities(capabilities) => after_capabilities(
                progress.request,
                capabilities@,
            ),
            _ => seq![],
        });
        assert(program::<F, P>(after.request, after.kept, None).len() <= after.program().len());
    } else {
        assert(after.program() == progress.program());
        if !(progress.request is Texture) && progress.capabilities is None {
            // The question at the end is still open.
            let program = progress.program();
            assert(is_question(program[program.len() - 1]));
        }
    }
}

/// Appends the commands that let each entry's texture stand for its image.
fn push_install_overrides<F, P>(commands: &mut Vec<Command<F, P>>, overrides: usize)
    ensures
        final(commands)@ == old(commands)@ + install_overrides::<F, P>(overrides),
{
    let ghost before = commands@;
    let mut entry: usize = 0;
    while entry < overrides
        invariant
            entry <= overrides,
            commands@ == before + install_overrides::<F, P>(entry),
        decreases overrides - entry,
    {
        commands.push(Command::OverrideImage { entry, texture: Some(TexelCopy::whole()) });
        entry += 1;
        assert(commands@ =~= before + install_overrides::<F, P>(entry));
    }
}

/// Appends the commands that let each entry's image stand for itself again.
fn push_remove_overrides<F, P>(commands: &mut Vec<Command<F, P>>, overrides: usize)
    ensures
        final(commands)@ == old(commands)@ + remove_overrides::<F, P>(overrides),
{
    let ghost before = commands@;
    let mut entry: usize = 0;
    while entry < overrides
        invariant
            entry <= overrides,
            commands@ == before + remove_overrides::<F, P>(entry),
        decreases overrides - entry,
    {
        commands.push(Command::OverrideImage { entry, texture: None });
        entry += 1;
        assert(commands@ =~= before + remove_overrides::<F, P>(entry));
    }
}

/// Appends the commands by which the renderer draws the scene.
fn push_draw_scene<F, P>(
    commands: &mut Vec<Command<F, P>>,
    target: RenderTarget,
    params: RenderParams,
    overrides: usize,
)
    ensures
        final(commands)@ == old(commands)@ + draw_scene::<F, P>(target, params, overrides),
{
    let ghost before = commands@;
    commands.push(Command::LockRenderer);
    push_install_overrides(commands, overrides);
    commands.push(Command::RenderScene { target, params });
    push_remove_overrides(commands, overrides);
    commands.push(Command::UnlockRenderer);
    assert(commands@ =~= before + draw_scene::<F, P>(target, params, overrides));
}

/// Appends the creation of a texture and its view.
fn push_new_texture<F, P>(commands: &mut Vec<Command<F, P>>, texture: TextureDescriptor)
    ensures
        final(commands)@ == old(commands)@ + new_texture::<F, P>(texture),
{
    commands.push(Command::CreateTexture(texture));
    commands.push(Command::CreateTextureView);
}

/// Appends the creation of a target texture, if the one that is kept does not fit.
fn push_prepare_target<F, P>(
    commands: &mut Vec<Command<F, P>>,
    size: UVec2,
    kept: Option<UVec2>,
)
    ensures
        final(commands)@ == old(commands)@ + prepare_target::<F, P>(size, kept),
{
    let fits = match kept {
        Some(kept) => kept == size,
        None => false,
    };
    if !fits {
        commands.push(Command::CreateTexture(TextureDescriptor::target(size)));
        commands.push(Command::CreateTextureView);
        commands.push(Command::StoreTarget(size));
    }
}

/// Appends the commands that show the target texture.
fn push_blit_frame<F, P>(commands: &mut Vec<Command<F, P>>)
    ensures
        final(commands)@ == old(commands)@ + blit_frame::<F, P>(),
{
    commands.push(Command::AcquireSurfaceTexture);
    commands.push(Command::CreateCommandEncoder { label: "Surface Blit" });
    commands.push(Command::Blit);
    commands.push(Command::Submit);
    commands.push(Command::Present);
}

/// Appends the creation of all that drawing an artboard onto a canvas needs.
fn push_build_canvas_pipeline<F, P>(
    commands: &mut Vec<Command<F, P>>,
    footprint: Footprint,
    format: F,
)
    ensures
        final(commands)@ == old(commands)@ + build_canvas_pipeline::<F, P>(footprint, format),
{
    commands.push(Command::CreateShaderModule(ShaderModule::of(ShaderStage::Vertex)));
    commands.push(Command::CreateShaderModule(ShaderModule::of(ShaderStage::Fragment)));
    commands.push(Command::CreateBindGroupLayout(BindGroupLayout::canvas()));
    commands.push(Command::CreatePipelineLayout);
    commands.push(Command::CreateRenderPipeline(RenderPipeline::canvas(format)));
    commands.push(Command::CreateBuffer(BufferDescriptor::transform(footprint.transform)));
    commands.push(Command::CreateSampler(SamplerDescriptor::linear()));
    commands.push(Command::CreateBuffer(BufferDescriptor::vertices()));
    commands.push(Command::CreateBindGroup(BindGroup::canvas()));
}

/// Appends the commands that show the artboard, unless it lies past the canvas.
fn push_canvas_frame<F, P>(commands: &mut Vec<Command<F, P>>, footprint: Footprint)
    ensures
        final(commands)@ == old(commands)@ + canvas_frame::<F, P>(footprint),
{
    if !footprint.past_canvas() {
        commands.push(Command::AcquireSurfaceTexture);
        commands.push(Command::CreateCommandEncoder { label: "Surface Blit" });
        commands.push(Command::RenderPass(RenderPass::canvas()));
        commands.push(Command::Submit);
        commands.push(Command::Present);
    }
}

/// A frame under way: what to do next, and what is left to ask.
pub struct RenderJob<F, P, E> {
    request: Request,
    kept: Option<Option<UVec2>>,
    capabilities: Option<SurfaceCapabilities<F, P>>,
    commands: Vec<Command<F, P>>,
    performed: usize,
    failure: Option<E>,
}

impl<F, P, E> View for RenderJob<F, P, E> {
    type V = Progress<F, P, E>;

    closed spec fn view(&self) -> Progress<F, P, E> {
        Progress {
            request: self.request,
            kept: self.kept,
            capabilities: match self.capabilities {
                Some(capabilities) => Some(capabilities@),
                None => None,
            },
            performed: self.performed as nat,
            failure: self.failure,
        }
    }
}

impl<F, P, E> RenderJob<F, P, E> {
    #[verifier::type_invariant]
    spec fn well_formed(self) -> bool {
        &&& self.commands@ == self@.program()
        &&& self@.valid()
    }

    /// The start of a frame.
    pub fn new(request: Request) -> (r: Self)
        ensures
            r@ == Progress::<F, P, E>::start(request),
            r@.valid(),
    {
        let mut commands: Vec<Command<F, P>> = Vec::new();
        match request {
            Request::ViewModePixels { artboard_dimensions, footprint, background, overrides } => {
                push_new_texture(&mut commands, TextureDescriptor::artboard(artboard_dimensions));
                let size = artboard_dimensions.as_uvec2();
                push_draw_scene(
                    &mut commands,
                    RenderTarget::NewTexture,
                    RenderParams::over_opaque(size, background),
                    overrides,
                );
                commands.push(Command::QueryCapabilities);
            },
            Request::Scene { .. } => {
                commands.push(Command::LockTarget);
            },
            Request::Texture { size, background, overrides } => {
                push_new_texture(&mut commands, TextureDescriptor::output(size));
                push_draw_scene(
                    &mut commands,
                    RenderTarget::NewTexture,
                    RenderParams::over(size, background),
                    overrides,
                );
            },
        }
        proof {
            assert(commands@ =~= opening::<F, P>(request));
            assert(program::<F, P>(request, None, None) =~= opening::<F, P>(request));
        }
        RenderJob {
            request,
            kept: None,
            capabilities: None,
            commands,
            performed: 0,
            failure: None,
        }
    }

    /// The command to perform next, or none once the frame is finished.
    pub fn next_command(&self) -> (r: Option<&Command<F, P>>)
        ensures
            r matches Some(command) ==> self@.next_command() == Some(*command),
            r is None <==> self@.next_command() is None,
            r is None <==> self@.is_finished(),
            self@.valid(),
    {
        proof {
            use_type_invariant(self);
        }
        if self.failure.is_some() || self.performed == self.commands.len() {
            None
        } else {
            Some(&self.commands[self.performed])
        }
    }

    /// Whether `event` is an answer to the next command: the target is asked for its size and
    /// the adapter for its capabilities, drawing a scene and acquiring a texture can fail, and
    /// anything else is just completed. Capabilities have to name a present mode, and a format
    /// where the frame draws onto a canvas.
    pub fn accepts(&self, event: &Event<F, P, E>) -> (r: bool)
        ensures
            r == self@.accepts(*event),
            self@.valid(),
    {
        proof {
            use_type_invariant(self);
        }
        match self.next_command() {
            None => false,
            Some(Command::LockTarget) => matches!(event, Event::TargetLocked(_)),
            Some(Command::QueryCapabilities) => match event {
                Event::Capabilities(capabilities) => {
                    capabilities.present_modes.len() > 0 && (match self.request {
                        Request::ViewModePixels { .. } => capabilities.formats.len() > 0,
                        _ => true,
                    })
                },
                _ => false,
            },
            Some(Command::RenderScene { .. }) | Some(Command::AcquireSurfaceTexture) => {
                matches!(event, Event::Completed | Event::Failed(_))
            },
            Some(_) => matches!(event, Event::Completed),
        }
    }

    /// Whether the frame returns the texture that it created: a scene was drawn into a texture of
    /// its own, and nothing failed.
    pub fn hands_out_texture(&self) -> (r: bool)
        ensures
            r == self@.hands_out_texture(),
            self@.valid(),
    {
        proof {
            use_type_invariant(self);
        }
        matches!(self.request, Request::Texture { .. }) && self.failure.is_none()
            && self.performed == self.commands.len()
    }

    /// What the frame returns: the error of the command that failed, if one did.
    pub fn into_result(self) -> (r: Result<(), E>)
        requires
            self@.is_finished(),
        ensures
            r == self@.result(),
    {
        match self.failure {
            Some(error) => Err(error),
            None => Ok(()),
        }
    }
}

impl<F: Copy, P: Copy, E> RenderJob<F, P, E> {
    /// The frame after the next command was performed and answered with `event`.
    pub fn advance(self, event: Event<F, P, E>) -> (r: Self)
        requires
            self@.accepts(event),
        ensures
            r@ == self@.after(event),
            r@.valid(),
    {
        proof {
            use_type_invariant(&self);
            law_frames_only_grow(self@, event);
            if is_question(self@.next_command().unwrap()) {
                lemma_question_is_last(self@);
            }
            assert(self.performed < self.commands.len());
        }
        let ghost after = self@.after(event);
        let RenderJob { request, kept, capabilities, mut commands, performed, failure } = self;
        match event {
            Event::Completed => {
                RenderJob {
                    request,
                    kept,
                    capabilities,
                    commands,
                    performed: performed + 1,
                    failure,
                }
            },
            Event::Failed(error) => {
                RenderJob {
                    request,
                    kept,
                    capabilities,
                    commands,
                    performed: performed + 1,
                    failure: Some(error),
                }
            },
            Event::TargetLocked(size_kept) => {
                if let Request::Scene { size, .. } = request {
                    push_prepare_target(&mut commands, size, size_kept);
                    commands.push(Command::QueryCapabilities);
                }
                assert(commands@ =~= after.program());
                RenderJob {
                    request,
                    kept: Some(size_kept),
                    capabilities,
                    commands,
                    performed: performed + 1,
                    failure,
                }
            },
            Event::Capabilities(found) => {
                match request {
                    Request::ViewModePixels { footprint, .. } => {
                        commands.push(
                            Command::ConfigureSurface(
                                SurfaceConfiguration::new(
                                    footprint.resolution,
                                    found.present_modes[0],
                                    true,
                                ),
                            ),
                        );
                        push_build_canvas_pipeline(&mut commands, footprint, found.formats[0]);
                        push_canvas_frame(&mut commands, footprint);
                    },
                    Request::Scene { size, background, overrides } => {
                        commands.push(
                            Command::ConfigureSurface(
                                SurfaceConfiguration::new(size, found.present_modes[0], false),
                            ),
                        );
                        push_draw_scene(
                            &mut commands,
                            RenderTarget::SurfaceTarget,
                            RenderParams::over_opaque(size, background),
                            overrides,
                        );
                        push_blit_frame(&mut commands);
                    },
                    Request::Texture { .. } => {},
                }
                assert(commands@ =~= after.program());
                RenderJob {
                    request,
                    kept,
                    capabilities: Some(found),
                    commands,
                    performed: performed + 1,
                    failure,
                }
            },
        }
    }
}

} // verus!
