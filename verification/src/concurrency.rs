//! Frames that are drawn at the same time with one renderer, on any number of surfaces: a model
//! of how their commands interleave, and what holds of every interleaving.

use crate::command::Command;
use crate::effects::{lemma_fallible, lemma_locking};
use crate::geometry::UVec2;
use crate::job::Progress;
use crate::laws::{
    could_not_draw, draw_at, holds_renderer, holds_target, law_frames_end, lock_at, target_after,
};
use vstd::prelude::*;

verus! {

/// A frame of a concurrent run: how far it comes in the end, the images of the entries of its
/// render context, and its surface.
pub struct Call<F, P, E> {
    pub progress: Progress<F, P, E>,
    pub images: Seq<u64>,
    pub surface: int,
}

/// What happens next.
pub enum Turn {
    /// A call performs its next command.
    Perform(int),
    /// A call, which is finished, ends and gives back the locks that it holds.
    End(int),
}

/// What the calls share, and how far each of them is.
pub struct Shared {
    /// The call that holds the renderer.
    pub renderer: Option<int>,
    /// For each image that a texture stands for in the renderer, the call that put the texture
    /// in place and the entry of its render context.
    pub overrides: Map<u64, (int, int)>,
    /// For each surface whose target is locked, the call that holds it.
    pub targets: Map<int, int>,
    /// For each surface that keeps a target, its size.
    pub kept: Map<int, UVec2>,
    /// For each surface, the call among those that have locked its target that ended last.
    pub last: Map<int, int>,
    /// How many commands each call has performed.
    pub performed: Seq<nat>,
    pub ended: Seq<bool>,
}

/// The entry of a map, if there is one.
pub open spec fn entry<V>(map: Map<int, V>, key: int) -> Option<V> {
    if map.dom().contains(key) {
        Some(map[key])
    } else {
        None
    }
}

impl Shared {
    /// Before any call has done anything, with nothing in the place of an image.
    pub open spec fn start(calls: nat, kept: Map<int, UVec2>) -> Shared {
        Shared {
            renderer: None,
            overrides: Map::empty(),
            targets: Map::empty(),
            kept,
            last: Map::empty(),
            performed: Seq::new(calls, |f: int| 0nat),
            ended: Seq::new(calls, |f: int| false),
        }
    }

    /// The command that call `f` performs next.
    pub open spec fn command<F, P, E>(self, calls: Seq<Call<F, P, E>>, f: int) -> Command<F, P> {
        calls[f].progress.program()[self.performed[f] as int]
    }

    /// Whether call `f` is under way.
    pub open spec fn runs<F, P, E>(self, calls: Seq<Call<F, P, E>>, f: int) -> bool {
        0 <= f < calls.len() && !self.ended[f]
    }

    /// Whether `turn` can come next. A lock is taken only while nobody holds it, and whoever
    /// locks a target finds the size that is kept there.
    pub open spec fn possible<F, P, E>(self, calls: Seq<Call<F, P, E>>, turn: Turn) -> bool {
        match turn {
            Turn::Perform(f) => {
                &&& self.runs(calls, f)
                &&& self.performed[f] < calls[f].progress.performed
                &&& self.command(calls, f) is LockRenderer ==> self.renderer is None
                &&& self.command(calls, f) is LockTarget ==> {
                    &&& !self.targets.dom().contains(calls[f].surface)
                    &&& calls[f].progress.kept == Some(entry(self.kept, calls[f].surface))
                }
            },
            Turn::End(f) => {
                &&& self.runs(calls, f)
                &&& self.performed[f] == calls[f].progress.performed
                &&& calls[f].progress.is_finished()
            },
        }
    }

    /// What `turn` leads to.
    pub open spec fn after<F, P, E>(self, calls: Seq<Call<F, P, E>>, turn: Turn) -> Shared {
        match turn {
            Turn::Perform(f) => {
                let surface = calls[f].surface;
                let performed = self.performed.update(f, self.performed[f] + 1);
                match self.command(calls, f) {
                    Command::LockRenderer => Shared { performed, renderer: Some(f), ..self },
                    Command::UnlockRenderer => Shared { performed, renderer: None, ..self },
                    Command::OverrideImage { entry, texture } => Shared {
                        performed,
                        overrides: if texture is Some {
                            self.overrides.insert(
                                calls[f].images[entry as int],
                                (f, entry as int),
                            )
                        } else {
                            self.overrides.remove(calls[f].images[entry as int])
                        },
                        ..self
                    },
                    Command::LockTarget => Shared {
                        performed,
                        targets: self.targets.insert(surface, f),
                        ..self
                    },
                    Command::StoreTarget(size) => Shared {
                        performed,
                        kept: self.kept.insert(surface, size),
                        ..self
                    },
                    _ => Shared { performed, ..self },
                }
            },
            Turn::End(f) => {
                let surface = calls[f].surface;
                let held = self.targets.contains_pair(surface, f);
                Shared {
                    renderer: if self.renderer == Some(f) {
                        None
                    } else {
                        self.renderer
                    },
                    targets: if held {
                        self.targets.remove(surface)
                    } else {
                        self.targets
                    },
                    last: if held {
                        self.last.insert(surface, f)
                    } else {
                        self.last
                    },
                    ended: self.ended.update(f, true),
                    ..self
                }
            },
        }
    }
}

/// What a run of turns leads to.
pub open spec fn run<F, P, E>(
    calls: Seq<Call<F, P, E>>,
    kept: Map<int, UVec2>,
    turns: Seq<Turn>,
) -> Shared
    decreases turns.len(),
{
    if turns.len() == 0 {
        Shared::start(calls.len(), kept)
    } else {
        run(calls, kept, turns.drop_last()).after(calls, turns.last())
    }
}

/// Whether a call is a frame with these images in its render context.
pub open spec fn is_frame<F, P, E>(call: Call<F, P, E>) -> bool {
    call.progress.valid() && call.images.len() == call.progress.request.overrides()
}

/// Whether the calls are frames and each turn can come when it comes.
pub open spec fn is_run<F, P, E>(
    calls: Seq<Call<F, P, E>>,
    kept: Map<int, UVec2>,
    turns: Seq<Turn>,
) -> bool
    decreases turns.len(),
{
    if turns.len() == 0 {
        forall|f: int| 0 <= f < calls.len() ==> is_frame(#[trigger] calls[f])
    } else {
        is_run(calls, kept, turns.drop_last()) && run(calls, kept, turns.drop_last()).possible(
            calls,
            turns.last(),
        )
    }
}

/// The size of the target that a surface keeps while a call that has locked it is under way and
/// has performed `n` commands: that of the call's scene once a target that did not fit was
/// replaced.
pub open spec fn kept_by<F, P, E>(progress: Progress<F, P, E>, n: nat) -> Option<UVec2> {
    if n >= 4 {
        target_after(progress.request, None)
    } else {
        progress.kept.unwrap()
    }
}

/// What holds at every moment of every run.
spec fn consistent<F, P, E>(
    shared: Shared,
    calls: Seq<Call<F, P, E>>,
    kept: Map<int, UVec2>,
) -> bool {
    &&& shared.performed.len() == calls.len()
    &&& shared.ended.len() == calls.len()
    &&& forall|f: int| 0 <= f < calls.len() ==> call_consistent(shared, #[trigger] calls[f], f)
    &&& shared.renderer matches Some(f) ==> 0 <= f < calls.len()
    &&& forall|s: int| #[trigger] surface_consistent(shared, calls, kept, s)
    &&& forall|image: u64| #[trigger] image_consistent(shared, calls, image)
    &&& shared.renderer matches Some(f) ==> holder_consistent(shared, calls[f], f)
}

/// Whether the texture that stands for an image was left behind by a call that could not draw
/// and has ended.
pub open spec fn is_left_behind<F, P, E>(
    shared: Shared,
    calls: Seq<Call<F, P, E>>,
    image: u64,
) -> bool {
    let (f, i) = shared.overrides[image];
    &&& 0 <= f < calls.len()
    &&& shared.ended[f]
    &&& could_not_draw(calls[f].progress)
    &&& 0 <= i < calls[f].images.len()
    &&& calls[f].images[i] == image
}

/// What stands for an image was left behind or belongs to the call that holds the renderer.
spec fn image_consistent<F, P, E>(
    shared: Shared,
    calls: Seq<Call<F, P, E>>,
    image: u64,
) -> bool {
    shared.overrides.dom().contains(image) ==> {
        ||| is_left_behind(shared, calls, image)
        ||| {
            let (f, i) = shared.overrides[image];
            shared.renderer == Some(f) && 0 <= i < calls[f].images.len() && calls[f].images[i]
                == image
        }
    }
}

/// The call that holds the renderer has put some of its textures in place, or all, or has taken
/// some of them back.
spec fn holder_consistent<F, P, E>(shared: Shared, call: Call<F, P, E>, f: int) -> bool {
    let placed = shared.performed[f] - lock_at(call.progress) - 1;
    let removed = shared.performed[f] - draw_at(call.progress) - 1;
    &&& placed <= call.images.len() ==> forall|i: int|
        0 <= i < placed ==> has_own_entry(shared, call, f, #[trigger] call.images[i], i)
    &&& removed >= 0 ==> forall|i: int|
        0 <= i < removed ==> !shared.overrides.dom().contains(#[trigger] call.images[i])
}

/// The texture of entry `i` of a call, or of a later entry of it, stands for `image`.
pub open spec fn has_own_entry<F, P, E>(
    shared: Shared,
    call: Call<F, P, E>,
    f: int,
    image: u64,
    i: int,
) -> bool {
    shared.overrides.dom().contains(image) && ({
        let (g, j) = shared.overrides[image];
        g == f && i <= j < call.images.len() && call.images[j] == image
    })
}

spec fn call_consistent<F, P, E>(shared: Shared, call: Call<F, P, E>, f: int) -> bool {
    let progress = call.progress;
    let n = shared.performed[f];
    &&& is_frame(call)
    &&& n <= progress.performed
    &&& shared.ended[f] ==> n == progress.performed && progress.is_finished()
    &&& shared.renderer == Some(f) <==> !shared.ended[f] && holds_renderer(progress, n)
    &&& shared.targets.contains_pair(call.surface, f) <==> !shared.ended[f] && holds_target(
        progress,
        n,
    )
}

spec fn surface_consistent<F, P, E>(
    shared: Shared,
    calls: Seq<Call<F, P, E>>,
    kept: Map<int, UVec2>,
    s: int,
) -> bool {
    &&& entry(shared.targets, s) matches Some(f) ==> {
        &&& 0 <= f < calls.len()
        &&& calls[f].surface == s
        &&& calls[f].progress.kept is Some
        &&& entry(shared.kept, s) == kept_by(calls[f].progress, shared.performed[f])
    }
    &&& entry(shared.last, s) matches Some(f) ==> {
        &&& 0 <= f < calls.len()
        &&& calls[f].surface == s
        &&& calls[f].progress.request is Scene
        &&& shared.ended[f]
    }
    &&& entry(shared.targets, s) is None ==> entry(shared.kept, s) == match entry(
        shared.last,
        s,
    ) {
        Some(f) => target_after(calls[f].progress.request, None),
        None => entry(kept, s),
    }
}

/// Once a frame on a surface is finished, its target is in place.
proof fn lemma_finished_scene<F, P, E>(progress: Progress<F, P, E>)
    requires
        progress.valid(),
        progress.request is Scene,
        progress.is_finished(),
    ensures
        progress.kept is Some,
        kept_by(progress, progress.performed) == target_after(progress.request, None),
{
    law_frames_end(progress);
    if progress.failure is Some {
        lemma_fallible(progress, progress.performed - 1);
    }
}

proof fn lemma_perform<F, P, E>(
    shared: Shared,
    calls: Seq<Call<F, P, E>>,
    kept: Map<int, UVec2>,
    f: int,
)
    requires
        consistent(shared, calls, kept),
        shared.possible(calls, Turn::Perform(f)),
    ensures
        consistent(shared.after(calls, Turn::Perform(f)), calls, kept),
{
    lemma_perform_lock(shared, calls, kept, f);
    lemma_perform_store(shared, calls, kept, f);
    lemma_perform_override(shared, calls, kept, f);
}

/// A call that performs a command leaves the locks in order.
proof fn lemma_perform_lock<F, P, E>(
    shared: Shared,
    calls: Seq<Call<F, P, E>>,
    kept: Map<int, UVec2>,
    f: int,
)
    requires
        consistent(shared, calls, kept),
        shared.possible(calls, Turn::Perform(f)),
    ensures
        ({
            let after = shared.after(calls, Turn::Perform(f));
            &&& forall|g: int|
                0 <= g < calls.len() ==> call_consistent(after, #[trigger] calls[g], g)
            &&& after.renderer matches Some(g) ==> 0 <= g < calls.len()
        }),
{
    let after = shared.after(calls, Turn::Perform(f));
    assert(call_consistent(shared, calls[f], f));
    lemma_locking(calls[f].progress, shared.performed[f] as int);
    assert forall|g: int| 0 <= g < calls.len() implies call_consistent(
        after,
        #[trigger] calls[g],
        g,
    ) by {
        assert(call_consistent(shared, calls[g], g));
    }
}

/// A call that performs a command leaves the kept targets in order.
proof fn lemma_perform_store<F, P, E>(
    shared: Shared,
    calls: Seq<Call<F, P, E>>,
    kept: Map<int, UVec2>,
    f: int,
)
    requires
        consistent(shared, calls, kept),
        shared.possible(calls, Turn::Perform(f)),
    ensures
        forall|s: int| #[trigger]
            surface_consistent(shared.after(calls, Turn::Perform(f)), calls, kept, s),
{
    let after = shared.after(calls, Turn::Perform(f));
    assert(call_consistent(shared, calls[f], f));
    lemma_locking(calls[f].progress, shared.performed[f] as int);
    assert forall|s: int| #[trigger] surface_consistent(after, calls, kept, s) by {
        assert(surface_consistent(shared, calls, kept, s));
    }
}

/// A call that performs a command leaves in order what stands for images.
proof fn lemma_perform_override<F, P, E>(
    shared: Shared,
    calls: Seq<Call<F, P, E>>,
    kept: Map<int, UVec2>,
    f: int,
)
    requires
        consistent(shared, calls, kept),
        shared.possible(calls, Turn::Perform(f)),
    ensures
        ({
            let after = shared.after(calls, Turn::Perform(f));
            &&& forall|image: u64| #[trigger] image_consistent(after, calls, image)
            &&& after.renderer matches Some(g) ==> holder_consistent(after, calls[g], g)
        }),
{
    let after = shared.after(calls, Turn::Perform(f));
    let n = shared.performed[f];
    let call = calls[f];
    assert(call_consistent(shared, call, f));
    lemma_locking(call.progress, n as int);
    assert forall|image: u64| #[trigger] image_consistent(after, calls, image) by {
        assert(image_consistent(shared, calls, image));
    }
}

proof fn lemma_end<F, P, E>(
    shared: Shared,
    calls: Seq<Call<F, P, E>>,
    kept: Map<int, UVec2>,
    f: int,
)
    requires
        consistent(shared, calls, kept),
        shared.possible(calls, Turn::End(f)),
    ensures
        consistent(shared.after(calls, Turn::End(f)), calls, kept),
{
    let after = shared.after(calls, Turn::End(f));
    let progress = calls[f].progress;
    assert(call_consistent(shared, calls[f], f));
    if progress.request is Scene {
        lemma_finished_scene(progress);
    }
    assert forall|g: int| 0 <= g < calls.len() implies call_consistent(
        after,
        #[trigger] calls[g],
        g,
    ) by {
        assert(call_consistent(shared, calls[g], g));
    }
    assert forall|s: int| #[trigger] surface_consistent(after, calls, kept, s) by {
        assert(surface_consistent(shared, calls, kept, s));
    }
    if shared.renderer == Some(f) {
        lemma_held_at_the_end(progress);
    }
    assert forall|image: u64| #[trigger] image_consistent(after, calls, image) by {
        assert(image_consistent(shared, calls, image));
    }
}

/// A finished call that still holds the renderer could not draw.
proof fn lemma_held_at_the_end<F, P, E>(progress: Progress<F, P, E>)
    requires
        progress.valid(),
        progress.is_finished(),
        holds_renderer(progress, progress.performed),
    ensures
        could_not_draw(progress),
{
    law_frames_end(progress);
    if progress.failure is Some {
        lemma_fallible(progress, progress.performed - 1);
        lemma_locking(progress, progress.performed - 1);
    }
}

proof fn lemma_run<F, P, E>(calls: Seq<Call<F, P, E>>, kept: Map<int, UVec2>, turns: Seq<Turn>)
    requires
        is_run(calls, kept, turns),
    ensures
        consistent(run(calls, kept, turns), calls, kept),
    decreases turns.len(),
{
    if turns.len() == 0 {
        let start = Shared::start(calls.len(), kept);
        assert forall|f: int| 0 <= f < calls.len() implies call_consistent(
            start,
            #[trigger] calls[f],
            f,
        ) by {
            assert(is_frame(calls[f]));
            law_frames_end(calls[f].progress);
        }
        assert forall|s: int| #[trigger] surface_consistent(start, calls, kept, s) by {}
    } else {
        lemma_run(calls, kept, turns.drop_last());
        let before = run(calls, kept, turns.drop_last());
        match turns.last() {
            Turn::Perform(f) => lemma_perform(before, calls, kept, f),
            Turn::End(f) => lemma_end(before, calls, kept, f),
        }
    }
}

/// Whether a command locks, unlocks or uses the renderer.
pub open spec fn touches_renderer<F, P>(command: Command<F, P>) -> bool {
    command is LockRenderer || command is OverrideImage || command is RenderScene
        || command is UnlockRenderer
}

/// However calls on one renderer interleave, each puts its textures in place, draws and takes
/// them back in one block: from where it locks the renderer to where it unlocks it, or fails and
/// ends, no other call does anything to the renderer. No call does anything to a renderer that it
/// has not locked.
pub proof fn law_renderer_is_used_in_blocks<F, P, E>(
    calls: Seq<Call<F, P, E>>,
    kept: Map<int, UVec2>,
    turns: Seq<Turn>,
    f: int,
    g: int,
)
    requires
        is_run(calls, kept, turns),
        ({
            let shared = run(calls, kept, turns);
            &&& shared.runs(calls, f)
            &&& holds_renderer(calls[f].progress, shared.performed[f])
            &&& shared.possible(calls, Turn::Perform(g))
            &&& touches_renderer(shared.command(calls, g))
        }),
    ensures
        g == f,
        run(calls, kept, turns).renderer == Some(f),
{
    let shared = run(calls, kept, turns);
    lemma_run(calls, kept, turns);
    assert(call_consistent(shared, calls[f], f));
    assert(call_consistent(shared, calls[g], g));
    lemma_locking(calls[g].progress, shared.performed[g] as int);
}

/// Whoever tells the renderer to replace an image, to draw or to unlock holds it.
pub proof fn law_renderer_is_used_by_its_holder<F, P, E>(
    calls: Seq<Call<F, P, E>>,
    kept: Map<int, UVec2>,
    turns: Seq<Turn>,
    g: int,
)
    requires
        is_run(calls, kept, turns),
        run(calls, kept, turns).possible(calls, Turn::Perform(g)),
        touches_renderer(run(calls, kept, turns).command(calls, g)),
        !(run(calls, kept, turns).command(calls, g) is LockRenderer),
    ensures
        run(calls, kept, turns).renderer == Some(g),
{
    let shared = run(calls, kept, turns);
    lemma_run(calls, kept, turns);
    assert(call_consistent(shared, calls[g], g));
    lemma_locking(calls[g].progress, shared.performed[g] as int);
}

/// However calls on one renderer interleave, starting from a renderer in which nothing stands for
/// an image: when a call draws, the texture of each of its images' last entry stands for the
/// image, and all that stands for other images was left behind by calls that could not draw. If
/// there were none, the drawing sees exactly the call's own textures.
pub proof fn law_drawings_see_the_textures_of_their_call<F, P, E>(
    calls: Seq<Call<F, P, E>>,
    kept: Map<int, UVec2>,
    turns: Seq<Turn>,
    f: int,
)
    requires
        is_run(calls, kept, turns),
        run(calls, kept, turns).possible(calls, Turn::Perform(f)),
        run(calls, kept, turns).command(calls, f) is RenderScene,
    ensures
        ({
            let shared = run(calls, kept, turns);
            let images = calls[f].images;
            &&& forall|i: int|
                0 <= i < images.len() ==> has_own_entry(
                    shared,
                    calls[f],
                    f,
                    #[trigger] images[i],
                    i,
                )
            &&& forall|image: u64|
                !images.contains(image) && #[trigger] shared.overrides.dom().contains(image)
                    ==> is_left_behind(shared, calls, image)
            &&& (forall|g: int|
                0 <= g < calls.len() ==> !could_not_draw((#[trigger] calls[g]).progress))
                ==> shared.overrides.dom() == images.to_set()
        }),
{
    let shared = run(calls, kept, turns);
    let images = calls[f].images;
    lemma_run(calls, kept, turns);
    assert(call_consistent(shared, calls[f], f));
    lemma_locking(calls[f].progress, shared.performed[f] as int);
    assert forall|image: u64|
        !images.contains(image) && #[trigger] shared.overrides.dom().contains(
            image,
        ) implies is_left_behind(shared, calls, image) by {
        assert(image_consistent(shared, calls, image));
    }
    if forall|g: int| 0 <= g < calls.len() ==> !could_not_draw((#[trigger] calls[g]).progress) {
        assert forall|image: u64| shared.overrides.dom().contains(
            image,
        ) <==> images.to_set().contains(image) by {
            if images.contains(image) {
                let i = images.index_of(image);
                assert(has_own_entry(shared, calls[f], f, images[i], i));
            }
        }
        assert(shared.overrides.dom() =~= images.to_set());
    }
}

/// While no call holds the renderer, all that stands for an image was left behind by calls that
/// could not draw. If there were none, nothing does.
pub proof fn law_free_renderer_is_clean<F, P, E>(
    calls: Seq<Call<F, P, E>>,
    kept: Map<int, UVec2>,
    turns: Seq<Turn>,
)
    requires
        is_run(calls, kept, turns),
        run(calls, kept, turns).renderer is None,
    ensures
        ({
            let shared = run(calls, kept, turns);
            &&& forall|image: u64| #[trigger]
                shared.overrides.dom().contains(image) ==> is_left_behind(shared, calls, image)
            &&& (forall|f: int|
                0 <= f < calls.len() ==> !could_not_draw((#[trigger] calls[f]).progress))
                ==> shared.overrides == Map::<u64, (int, int)>::empty()
        }),
{
    let shared = run(calls, kept, turns);
    lemma_run(calls, kept, turns);
    assert forall|image: u64| #[trigger] shared.overrides.dom().contains(
        image,
    ) implies is_left_behind(shared, calls, image) by {
        assert(image_consistent(shared, calls, image));
    }
    if forall|f: int| 0 <= f < calls.len() ==> !could_not_draw((#[trigger] calls[f]).progress) {
        assert(shared.overrides =~= Map::<u64, (int, int)>::empty());
    }
}

/// Calls that draw scenes onto one surface take effect one after the other: once one of them has
/// locked the target, no other performs a single command before the first has ended. Until then
/// the surface keeps the target that the call found, or the one that the call put in its place.
pub proof fn law_scenes_on_a_surface_take_turns<F, P, E>(
    calls: Seq<Call<F, P, E>>,
    kept: Map<int, UVec2>,
    turns: Seq<Turn>,
    f: int,
    g: int,
)
    requires
        is_run(calls, kept, turns),
        ({
            let shared = run(calls, kept, turns);
            &&& shared.runs(calls, f)
            &&& holds_target(calls[f].progress, shared.performed[f])
            &&& 0 <= g < calls.len()
            &&& g != f
            &&& calls[g].progress.request is Scene
            &&& calls[g].surface == calls[f].surface
        }),
    ensures
        ({
            let shared = run(calls, kept, turns);
            &&& shared.targets.contains_pair(calls[f].surface, f)
            &&& !shared.possible(calls, Turn::Perform(g))
            &&& shared.runs(calls, g) ==> shared.performed[g] == 0
            &&& entry(shared.kept, calls[f].surface) == kept_by(
                calls[f].progress,
                shared.performed[f],
            )
        }),
{
    let shared = run(calls, kept, turns);
    lemma_run(calls, kept, turns);
    assert(call_consistent(shared, calls[f], f));
    assert(call_consistent(shared, calls[g], g));
    assert(surface_consistent(shared, calls, kept, calls[f].surface));
    if shared.possible(calls, Turn::Perform(g)) {
        lemma_locking(calls[g].progress, shared.performed[g] as int);
    }
}

/// A call that has ended, with whatever result, holds neither the renderer nor a target. When all
/// have ended, everything is free.
pub proof fn law_ended_calls_hold_nothing<F, P, E>(
    calls: Seq<Call<F, P, E>>,
    kept: Map<int, UVec2>,
    turns: Seq<Turn>,
)
    requires
        is_run(calls, kept, turns),
    ensures
        ({
            let shared = run(calls, kept, turns);
            &&& shared.renderer matches Some(f) ==> shared.runs(calls, f)
            &&& forall|s: int| #[trigger]
                shared.targets.dom().contains(s) ==> shared.runs(calls, shared.targets[s])
            &&& (forall|f: int| 0 <= f < calls.len() ==> #[trigger] shared.ended[f]) ==> {
                &&& shared.renderer is None
                &&& shared.targets == Map::<int, int>::empty()
            }
        }),
{
    let shared = run(calls, kept, turns);
    lemma_run(calls, kept, turns);
    if let Some(f) = shared.renderer {
        assert(call_consistent(shared, calls[f], f));
    }
    assert forall|s: int| #[trigger] shared.targets.dom().contains(s) implies shared.runs(
        calls,
        shared.targets[s],
    ) by {
        let f = shared.targets[s];
        assert(surface_consistent(shared, calls, kept, s));
        assert(call_consistent(shared, calls[f], f));
    }
    if forall|f: int| 0 <= f < calls.len() ==> #[trigger] shared.ended[f] {
        assert(shared.targets =~= Map::<int, int>::empty());
    }
}

/// While no call holds the target of a surface, the surface keeps a target of the size of the
/// scene that was drawn onto it last, well or badly, and what it kept before all calls if none
/// was.
pub proof fn law_last_scene_leaves_its_target<F, P, E>(
    calls: Seq<Call<F, P, E>>,
    kept: Map<int, UVec2>,
    turns: Seq<Turn>,
    surface: int,
)
    requires
        is_run(calls, kept, turns),
        !run(calls, kept, turns).targets.dom().contains(surface),
    ensures
        ({
            let shared = run(calls, kept, turns);
            match entry(shared.last, surface) {
                Some(f) => {
                    &&& 0 <= f < calls.len()
                    &&& shared.ended[f]
                    &&& calls[f].surface == surface
                    &&& calls[f].progress.request is Scene
                    &&& entry(shared.kept, surface) == target_after(
                        calls[f].progress.request,
                        None,
                    )
                },
                None => entry(shared.kept, surface) == entry(kept, surface),
            }
        }),
{
    lemma_run(calls, kept, turns);
    assert(surface_consistent(run(calls, kept, turns), calls, kept, surface));
}

} // verus!
