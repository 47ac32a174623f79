//! The radiance evaluator: a machine that walks the recursive surface
//! integrator for one camera ray, one piece of outside work at a time.
//!
//! The caller holds the rays and the spectral values. It asks the walk for
//! its pending action, performs it, and answers with what it found. Each
//! level of the walk is one ray: level 0 is the camera ray, level `k + 1` a
//! specular continuation of level `k`, with `max_depth - k` levels left.

use vstd::prelude::*;

use crate::scheduler::pow2;
use crate::integrator::{
    reflection_mask, specular_reflect, specular_rule, specular_transmit, surface_plan,
    transmission_mask, Hit, LobeSample, SpecularStep, SurfaceIntegrator, BSDF_REFLECTION,
    BSDF_SPECULAR, BSDF_TRANSMISSION,
};

verus! {

/// Where the evaluation of one level stands.
#[derive(Clone, Copy, Debug, PartialEq, Eq, Structural)]
pub enum Stage {
    /// Waiting for the nearest hit of the level's ray.
    Trace,
    /// The ray left the scene; waiting for the background term.
    Escaped,
    /// Waiting for the direct lighting term.
    Direct,
    /// Waiting for a sample of the specular-reflection lobes.
    SampleReflect,
    /// The reflection continuation is being evaluated one level deeper.
    InReflect,
    /// Waiting for a sample of the specular-transmission lobes.
    SampleTransmit,
    /// The transmission continuation is being evaluated one level deeper.
    InTransmit,
    /// Waiting for the emission term.
    Emission,
    /// All terms are in; waiting for the level's radiance to be handed up.
    Return,
}

/// One level of the walk.
#[derive(Clone, Copy, Debug, PartialEq, Eq, Structural)]
pub struct Frame {
    pub stage: Stage,
    pub hit: Hit,
}

/// The outside work that the walk waits for.
#[derive(Clone, Copy, Debug, PartialEq, Eq, Structural)]
pub enum WalkAction {
    /// Pass the camera ray through the volume integrator, then find its
    /// nearest hit; answer `Hit` or `Miss`.
    Trace { level: usize },
    /// Build the continuation ray of `level` from the sample taken one level
    /// up from the lobes in `mask`, pass it through the volume integrator and
    /// find its nearest hit; answer `Hit` or `Miss`.
    Continue { level: usize, mask: u32 },
    /// Take the background radiance for the escaped ray; answer `Done`.
    Background { level: usize },
    /// Add the direct lighting at the hit; answer `Done`.
    DirectLighting { level: usize },
    /// Sample the scattering function restricted to `mask`; answer `Lobe`.
    SampleLobe { level: usize, mask: u32 },
    /// Add the hit primitive's emission; answer `Done`.
    Emission { level: usize },
    /// The radiance of `level` is complete. At level 0 it is the result;
    /// deeper, add `f * L * |cos| / pdf` of the pending sample to the level
    /// above. Answer `Done`.
    Return { level: usize },
    /// The evaluation is over.
    Finished,
}

/// What the caller answers after performing an action.
#[derive(Clone, Copy, Debug, PartialEq, Eq, Structural)]
pub enum WalkEvent {
    Hit(Hit),
    Miss,
    Lobe(LobeSample),
    Done,
}

/// The hit recorded on a level before its ray is traced.
pub open spec fn no_hit() -> Hit {
    Hit { has_bsdf: false, emissive: false }
}

/// After every scattering term: emission if the primitive emits.
pub open spec fn stage_after_scattering(hit: Hit) -> Stage {
    if hit.emissive {
        Stage::Emission
    } else {
        Stage::Return
    }
}

/// After the hit is known.
pub open spec fn stage_after_hit(hit: Hit) -> Stage {
    if hit.has_bsdf {
        Stage::Direct
    } else {
        stage_after_scattering(hit)
    }
}

/// After direct lighting: the specular terms if a level is left.
pub open spec fn stage_after_direct(hit: Hit, remaining_depth: usize) -> Stage {
    if surface_plan(hit, remaining_depth).specular {
        Stage::SampleReflect
    } else {
        stage_after_scattering(hit)
    }
}

/// After the continuation below a level has returned.
pub open spec fn stage_after_child(parent: Frame) -> Stage {
    if parent.stage == Stage::InReflect {
        Stage::SampleTransmit
    } else {
        stage_after_scattering(parent.hit)
    }
}

/// A stage that waits for a continuation one level deeper.
pub open spec fn is_suspended(s: Stage) -> bool {
    s == Stage::InReflect || s == Stage::InTransmit
}

/// A stage that belongs to the specular terms.
pub open spec fn is_specular(s: Stage) -> bool {
    ||| s == Stage::SampleReflect
    ||| s == Stage::InReflect
    ||| s == Stage::SampleTransmit
    ||| s == Stage::InTransmit
}

/// The levels of a walk that is under way: all but the deepest wait for a
/// continuation, and specular terms stand only where a level is left.
pub open spec fn walk_wf(frames: Seq<Frame>, max_depth: usize) -> bool {
    &&& forall|i: int| 0 <= i < frames.len() - 1 ==> #[trigger] is_suspended(frames[i].stage)
    &&& frames.len() > 0 ==> !is_suspended(frames.last().stage)
    &&& forall|i: int|
        0 <= i < frames.len() && #[trigger] is_specular(frames[i].stage) ==> i < max_depth
}

/// Levels left below `level`.
pub open spec fn remaining_at(max_depth: usize, level: int) -> usize {
    (max_depth - level) as usize
}

/// The action that the deepest level waits for.
pub open spec fn pending_action(frames: Seq<Frame>, max_depth: usize) -> WalkAction {
    if frames.len() == 0 {
        WalkAction::Finished
    } else {
        let level = (frames.len() - 1) as usize;
        match frames.last().stage {
            Stage::Trace => if level == 0 {
                WalkAction::Trace { level }
            } else if frames[level - 1].stage == Stage::InReflect {
                WalkAction::Continue { level, mask: reflection_mask() }
            } else {
                WalkAction::Continue { level, mask: transmission_mask() }
            },
            Stage::Escaped => WalkAction::Background { level },
            Stage::Direct => WalkAction::DirectLighting { level },
            Stage::SampleReflect => WalkAction::SampleLobe { level, mask: reflection_mask() },
            Stage::SampleTransmit => WalkAction::SampleLobe { level, mask: transmission_mask() },
            Stage::Emission => WalkAction::Emission { level },
            _ => WalkAction::Return { level },
        }
    }
}

/// The answers that the pending action admits.
pub open spec fn event_fits(frames: Seq<Frame>, e: WalkEvent) -> bool {
    frames.len() > 0 && match frames.last().stage {
        Stage::Trace => e is Hit || e is Miss,
        Stage::SampleReflect | Stage::SampleTransmit => e is Lobe,
        Stage::InReflect | Stage::InTransmit => false,
        _ => e is Done,
    }
}

/// Sets the stage of the deepest level.
pub open spec fn with_top_stage(frames: Seq<Frame>, s: Stage) -> Seq<Frame> {
    frames.update(frames.len() - 1, Frame { stage: s, hit: frames.last().hit })
}

/// The levels after the deepest one answered `e`.
pub open spec fn walk_next(frames: Seq<Frame>, max_depth: usize, e: WalkEvent) -> Seq<Frame> {
    let level = frames.len() - 1;
    let top = frames.last();
    let remaining = remaining_at(max_depth, level);
    let fresh = Frame { stage: Stage::Trace, hit: no_hit() };
    match e {
        WalkEvent::Hit(h) => frames.update(level, Frame { stage: stage_after_hit(h), hit: h }),
        WalkEvent::Miss => with_top_stage(frames, Stage::Escaped),
        WalkEvent::Lobe(s) => if top.stage == Stage::SampleReflect {
            if specular_rule(s, reflection_mask(), remaining) is Continue {
                with_top_stage(frames, Stage::InReflect).push(fresh)
            } else {
                with_top_stage(frames, Stage::SampleTransmit)
            }
        } else {
            if specular_rule(s, transmission_mask(), remaining) is Continue {
                with_top_stage(frames, Stage::InTransmit).push(fresh)
            } else {
                with_top_stage(frames, stage_after_scattering(top.hit))
            }
        },
        WalkEvent::Done => match top.stage {
            Stage::Escaped => with_top_stage(frames, Stage::Return),
            Stage::Direct => with_top_stage(frames, stage_after_direct(top.hit, remaining)),
            Stage::Emission => with_top_stage(frames, Stage::Return),
            _ => {
                let rest = frames.drop_last();
                if rest.len() == 0 {
                    rest
                } else {
                    with_top_stage(rest, stage_after_child(rest.last()))
                }
            },
        },
    }
}

/// The evaluation of one camera ray by the recursive surface integrator.
#[derive(Clone, Debug)]
pub struct RadianceWalk {
    max_depth: usize,
    frames: Vec<Frame>,
}

impl RadianceWalk {
    /// The levels under way, the camera ray's first.
    pub closed spec fn spec_frames(&self) -> Seq<Frame> {
        self.frames@
    }

    /// The specular depth the walk was started with.
    pub closed spec fn spec_max_depth(&self) -> usize {
        self.max_depth
    }

    pub open spec fn wf(&self) -> bool {
        walk_wf(self.spec_frames(), self.spec_max_depth())
    }

    /// A walk for one camera ray, with the integrator's whole depth left.
    pub fn new(surface: &SurfaceIntegrator) -> (r: RadianceWalk)
        ensures
            r.wf(),
            r.spec_max_depth() == surface.spec_max_depth(),
            r.spec_frames() == seq![(Frame { stage: Stage::Trace, hit: no_hit() })],
            walk_measure(r.spec_frames(), r.spec_max_depth()) == stage_budget(
                Stage::Trace,
                surface.spec_max_depth() as nat,
            ),
            walk_continuations(r.spec_frames(), r.spec_max_depth()) == continuation_count_budget(
                surface.spec_max_depth() as nat,
            ),
    {
        let mut frames: Vec<Frame> = Vec::new();
        frames.push(Frame { stage: Stage::Trace, hit: Hit { has_bsdf: false, emissive: false } });
        let r = RadianceWalk { max_depth: surface.max_depth(), frames };
        proof {
            assert(r.frames@.drop_last() =~= Seq::<Frame>::empty());
            assert(walk_measure(Seq::<Frame>::empty(), r.max_depth) == 0);
            assert(walk_measure(r.frames@, r.max_depth) == stage_budget(
                Stage::Trace,
                r.max_depth as nat,
            ));
            let d = r.max_depth as nat;
            assert(walk_continuations(Seq::<Frame>::empty(), r.max_depth) == 0);
            if d > 0 {
                assert(continuation_count_budget(d) == 2 * (1 + continuation_count_budget(
                    (d - 1) as nat,
                )));
            }
            assert(walk_continuations(r.frames@, r.max_depth) == stage_continuations(
                Stage::Trace,
                d,
            ));
        }
        r
    }

    /// The work that the walk waits for.
    pub fn action(&self) -> (r: WalkAction)
        requires
            self.wf(),
        ensures
            r == pending_action(self.spec_frames(), self.spec_max_depth()),
    {
        let n = self.frames.len();
        if n == 0 {
            return WalkAction::Finished;
        }
        let level: usize = n - 1;
        match self.frames[level].stage {
            Stage::Trace => if level == 0 {
                WalkAction::Trace { level }
            } else if self.frames[level - 1].stage == Stage::InReflect {
                WalkAction::Continue { level, mask: BSDF_REFLECTION | BSDF_SPECULAR }
            } else {
                WalkAction::Continue { level, mask: BSDF_TRANSMISSION | BSDF_SPECULAR }
            },
            Stage::Escaped => WalkAction::Background { level },
            Stage::Direct => WalkAction::DirectLighting { level },
            Stage::SampleReflect => WalkAction::SampleLobe {
                level,
                mask: BSDF_REFLECTION | BSDF_SPECULAR,
            },
            Stage::SampleTransmit => WalkAction::SampleLobe {
                level,
                mask: BSDF_TRANSMISSION | BSDF_SPECULAR,
            },
            Stage::Emission => WalkAction::Emission { level },
            _ => WalkAction::Return { level },
        }
    }

    /// Whether the pending action admits the answer `e`.
    pub fn accepts(&self, e: &WalkEvent) -> (r: bool)
        ensures
            r == event_fits(self.spec_frames(), *e),
    {
        let n = self.frames.len();
        if n == 0 {
            return false;
        }
        match self.frames[n - 1].stage {
            Stage::Trace => match e {
                WalkEvent::Hit(_) | WalkEvent::Miss => true,
                _ => false,
            },
            Stage::SampleReflect | Stage::SampleTransmit => match e {
                WalkEvent::Lobe(_) => true,
                _ => false,
            },
            Stage::InReflect | Stage::InTransmit => false,
            _ => match e {
                WalkEvent::Done => true,
                _ => false,
            },
        }
    }

    /// Whether the evaluation is over.
    pub fn is_finished(&self) -> (r: bool)
        ensures
            r == (self.spec_frames().len() == 0),
    {
        self.frames.len() == 0
    }

    /// Sets the stage of the deepest level.
    fn set_top_stage(&mut self, s: Stage)
        requires
            old(self).spec_frames().len() > 0,
        ensures
            final(self).spec_frames() == with_top_stage(old(self).spec_frames(), s),
            final(self).spec_max_depth() == old(self).spec_max_depth(),
    {
        let level = self.frames.len() - 1;
        let hit = self.frames[level].hit;
        self.frames.set(level, Frame { stage: s, hit });
    }

    /// Takes the answer to the pending action and moves to the next one.
    pub fn step(&mut self, e: WalkEvent) -> (r: WalkAction)
        requires
            old(self).wf(),
            event_fits(old(self).spec_frames(), e),
        ensures
            final(self).wf(),
            final(self).spec_max_depth() == old(self).spec_max_depth(),
            final(self).spec_frames() == walk_next(
                old(self).spec_frames(),
                old(self).spec_max_depth(),
                e,
            ),
            r == pending_action(final(self).spec_frames(), final(self).spec_max_depth()),
            walk_measure(final(self).spec_frames(), final(self).spec_max_depth()) < walk_measure(
                old(self).spec_frames(),
                old(self).spec_max_depth(),
            ),
            walk_continuations(final(self).spec_frames(), final(self).spec_max_depth())
                <= walk_continuations(old(self).spec_frames(), old(self).spec_max_depth()),
            final(self).spec_frames().len() > old(self).spec_frames().len() ==> walk_continuations(
                final(self).spec_frames(),
                final(self).spec_max_depth(),
            ) < walk_continuations(old(self).spec_frames(), old(self).spec_max_depth()),
    {
        let ghost frames0 = self.frames@;
        proof {
            lemma_step_decreases(frames0, self.max_depth, e);
            lemma_step_continuations(frames0, self.max_depth, e);
        }
        let level: usize = self.frames.len() - 1;
        let top = self.frames[level];
        proof {
            if level > 0 {
                assert(is_suspended(frames0[level - 1].stage));
                assert(is_specular(frames0[level - 1].stage));
            }
        }
        let remaining: usize = self.max_depth - level;
        match e {
            WalkEvent::Hit(h) => {
                let stage = if h.has_bsdf {
                    Stage::Direct
                } else if h.emissive {
                    Stage::Emission
                } else {
                    Stage::Return
                };
                self.frames.set(level, Frame { stage, hit: h });
            },
            WalkEvent::Miss => {
                self.set_top_stage(Stage::Escaped);
            },
            WalkEvent::Lobe(sample) => {
                assert(is_specular(frames0[level as int].stage));
                if top.stage == Stage::SampleReflect {
                    match specular_reflect(&sample, remaining) {
                        SpecularStep::Continue { .. } => {
                            self.set_top_stage(Stage::InReflect);
                            self.frames.push(Frame { stage: Stage::Trace, hit: Hit { has_bsdf: false, emissive: false } });
                        },
                        SpecularStep::Rejected(_) => {
                            self.set_top_stage(Stage::SampleTransmit);
                        },
                    }
                } else {
                    match specular_transmit(&sample, remaining) {
                        SpecularStep::Continue { .. } => {
                            self.set_top_stage(Stage::InTransmit);
                            self.frames.push(Frame { stage: Stage::Trace, hit: Hit { has_bsdf: false, emissive: false } });
                        },
                        SpecularStep::Rejected(_) => {
                            let stage = if top.hit.emissive {
                                Stage::Emission
                            } else {
                                Stage::Return
                            };
                            self.set_top_stage(stage);
                        },
                    }
                }
            },
            WalkEvent::Done => match top.stage {
                Stage::Escaped | Stage::Emission => {
                    self.set_top_stage(Stage::Return);
                },
                Stage::Direct => {
                    let stage = if top.hit.has_bsdf && remaining > 0 {
                        Stage::SampleReflect
                    } else if top.hit.emissive {
                        Stage::Emission
                    } else {
                        Stage::Return
                    };
                    self.set_top_stage(stage);
                },
                _ => {
                    self.frames.pop();
                    if self.frames.len() > 0 {
                        let parent = self.frames[level - 1];
                        let stage = if parent.stage == Stage::InReflect {
                            Stage::SampleTransmit
                        } else if parent.hit.emissive {
                            Stage::Emission
                        } else {
                            Stage::Return
                        };
                        self.set_top_stage(stage);
                    }
                },
            },
        }
        proof {
            assert(self.frames@ =~= walk_next(frames0, self.max_depth, e));
        }
        self.action()
    }
}

} // verus!

verus! {

/// The recursion bound: a walk started with depth `max_depth` has at most
/// `max_depth + 1` levels under way, the camera ray and at most `max_depth`
/// nested specular continuations, and it asks for a continuation only at a
/// level from `1` to `max_depth`.
pub proof fn lemma_nesting_bound(frames: Seq<Frame>, max_depth: usize)
    requires
        walk_wf(frames, max_depth),
    ensures
        frames.len() <= max_depth + 1,
        pending_action(frames, max_depth) is Continue ==> {
            let level = pending_action(frames, max_depth)->Continue_level;
            1 <= level <= max_depth
        },
{
    if frames.len() > 1 {
        let i = frames.len() - 2;
        assert(is_suspended(frames[i].stage));
        assert(is_specular(frames[i].stage));
    }
}

} // verus!

verus! {

/// The most steps that a continuation evaluated with `remaining_depth`
/// levels left below its parent can take: none without a level, else a
/// full level one deeper.
pub open spec fn continuation_budget(remaining_depth: nat) -> nat
    decreases remaining_depth,
{
    if remaining_depth == 0 {
        0
    } else {
        6 + 2 * continuation_budget((remaining_depth - 1) as nat)
    }
}

/// The most steps that a level in stage `s`, with `remaining_depth` levels
/// left, can still take, its future continuations included and its running
/// one not.
pub open spec fn stage_budget(s: Stage, remaining_depth: nat) -> nat {
    let c = continuation_budget(remaining_depth);
    match s {
        Stage::Trace => 6 + 2 * c,
        Stage::Direct => 5 + 2 * c,
        Stage::SampleReflect => 4 + 2 * c,
        Stage::InReflect => 3 + c,
        Stage::SampleTransmit => 3 + c,
        Stage::InTransmit => 2,
        Stage::Escaped => 2,
        Stage::Emission => 2,
        Stage::Return => 1,
    }
}

/// The most steps that a walk can still take.
pub open spec fn walk_measure(frames: Seq<Frame>, max_depth: usize) -> nat
    decreases frames.len(),
{
    if frames.len() == 0 {
        0
    } else {
        walk_measure(frames.drop_last(), max_depth) + stage_budget(
            frames.last().stage,
            (max_depth - (frames.len() - 1)) as nat,
        )
    }
}

proof fn lemma_measure_set_last(frames: Seq<Frame>, max_depth: usize, f: Frame)
    requires
        frames.len() > 0,
    ensures
        walk_measure(frames.update(frames.len() - 1, f), max_depth) == walk_measure(
            frames.drop_last(),
            max_depth,
        ) + stage_budget(f.stage, (max_depth - (frames.len() - 1)) as nat),
{
    assert(frames.update(frames.len() - 1, f).drop_last() =~= frames.drop_last());
}

proof fn lemma_measure_push(frames: Seq<Frame>, max_depth: usize, f: Frame)
    ensures
        walk_measure(frames.push(f), max_depth) == walk_measure(frames, max_depth) + stage_budget(
            f.stage,
            (max_depth - frames.len()) as nat,
        ),
{
    assert(frames.push(f).drop_last() =~= frames);
}

/// Every answer brings a walk closer to its end: the number of steps it can
/// still take falls, so the recursion ends after at most
/// `walk_measure` of its first state.
pub proof fn lemma_step_decreases(frames: Seq<Frame>, max_depth: usize, e: WalkEvent)
    requires
        walk_wf(frames, max_depth),
        event_fits(frames, e),
    ensures
        walk_measure(walk_next(frames, max_depth, e), max_depth) < walk_measure(
            frames,
            max_depth,
        ),
{
    let n = frames.len();
    let level = n - 1;
    let top = frames.last();
    let r = (max_depth - level) as nat;
    if level > 0 {
        assert(is_suspended(frames[level - 1].stage));
        assert(is_specular(frames[level - 1].stage));
    }
    let next = walk_next(frames, max_depth, e);
    match e {
        WalkEvent::Hit(h) => {
            lemma_measure_set_last(frames, max_depth, Frame { stage: stage_after_hit(h), hit: h });
        },
        WalkEvent::Miss => {
            lemma_measure_set_last(frames, max_depth, Frame { stage: Stage::Escaped, hit: top.hit });
        },
        WalkEvent::Lobe(s) => {
            assert(is_specular(frames[level].stage));
            assert(r > 0);
            assert(continuation_budget(r) == 6 + 2 * continuation_budget((r - 1) as nat));
            let fresh = Frame { stage: Stage::Trace, hit: no_hit() };
            let (mask, suspended) = if top.stage == Stage::SampleReflect {
                (reflection_mask(), Stage::InReflect)
            } else {
                (transmission_mask(), Stage::InTransmit)
            };
            let rejected = if top.stage == Stage::SampleReflect {
                Stage::SampleTransmit
            } else {
                stage_after_scattering(top.hit)
            };
            if specular_rule(s, mask, remaining_at(max_depth, level)) is Continue {
                let mid = with_top_stage(frames, suspended);
                lemma_measure_set_last(frames, max_depth, Frame { stage: suspended, hit: top.hit });
                lemma_measure_push(mid, max_depth, fresh);
            } else {
                lemma_measure_set_last(frames, max_depth, Frame { stage: rejected, hit: top.hit });
            }
        },
        WalkEvent::Done => {
            match top.stage {
                Stage::Escaped | Stage::Emission => {
                    lemma_measure_set_last(frames, max_depth, Frame { stage: Stage::Return, hit: top.hit });
                },
                Stage::Direct => {
                    lemma_measure_set_last(
                        frames,
                        max_depth,
                        Frame { stage: stage_after_direct(top.hit, remaining_at(max_depth, level)), hit: top.hit },
                    );
                },
                _ => {
                    let rest = frames.drop_last();
                    if rest.len() > 0 {
                        let parent = rest.last();
                        lemma_measure_set_last(
                            rest,
                            max_depth,
                            Frame { stage: stage_after_child(parent), hit: parent.hit },
                        );
                    }
                },
            }
        },
    }
}

} // verus!

verus! {

/// The most continuations that a level with `remaining_depth` levels left
/// can trace, counting those of its continuations.
pub open spec fn continuation_count_budget(remaining_depth: nat) -> nat
    decreases remaining_depth,
{
    if remaining_depth == 0 {
        0
    } else {
        2 * (1 + continuation_count_budget((remaining_depth - 1) as nat))
    }
}

/// The most continuations that a level in stage `s` can still trace, those
/// below its running continuation not counted.
pub open spec fn stage_continuations(s: Stage, remaining_depth: nat) -> nat {
    let k = if remaining_depth == 0 {
        0
    } else {
        1 + continuation_count_budget((remaining_depth - 1) as nat)
    };
    match s {
        Stage::Trace | Stage::Direct | Stage::SampleReflect => 2 * k,
        Stage::InReflect | Stage::SampleTransmit => k,
        _ => 0,
    }
}

/// The most continuations that a walk can still trace.
pub open spec fn walk_continuations(frames: Seq<Frame>, max_depth: usize) -> nat
    decreases frames.len(),
{
    if frames.len() == 0 {
        0
    } else {
        walk_continuations(frames.drop_last(), max_depth) + stage_continuations(
            frames.last().stage,
            (max_depth - (frames.len() - 1)) as nat,
        )
    }
}

proof fn lemma_continuations_set_last(frames: Seq<Frame>, max_depth: usize, f: Frame)
    requires
        frames.len() > 0,
    ensures
        walk_continuations(frames.update(frames.len() - 1, f), max_depth) == walk_continuations(
            frames.drop_last(),
            max_depth,
        ) + stage_continuations(f.stage, (max_depth - (frames.len() - 1)) as nat),
{
    assert(frames.update(frames.len() - 1, f).drop_last() =~= frames.drop_last());
}

proof fn lemma_continuations_push(frames: Seq<Frame>, max_depth: usize, f: Frame)
    ensures
        walk_continuations(frames.push(f), max_depth) == walk_continuations(frames, max_depth)
            + stage_continuations(f.stage, (max_depth - frames.len()) as nat),
{
    assert(frames.push(f).drop_last() =~= frames);
}

/// Each answer uses up at least one unit of the continuation budget when it
/// starts a continuation, and never adds to it: a walk started with depth
/// `max_depth` traces at most `continuation_count_budget(max_depth)`
/// continuations in all.
pub proof fn lemma_step_continuations(frames: Seq<Frame>, max_depth: usize, e: WalkEvent)
    requires
        walk_wf(frames, max_depth),
        event_fits(frames, e),
    ensures
        ({
            let next = walk_next(frames, max_depth, e);
            walk_continuations(next, max_depth) + (if next.len() > frames.len() {
                1nat
            } else {
                0nat
            }) <= walk_continuations(frames, max_depth)
        }),
{
    let n = frames.len();
    let level = n - 1;
    let top = frames.last();
    let r = (max_depth - level) as nat;
    if level > 0 {
        assert(is_suspended(frames[level - 1].stage));
        assert(is_specular(frames[level - 1].stage));
    }
    match e {
        WalkEvent::Hit(h) => {
            lemma_continuations_set_last(frames, max_depth, Frame { stage: stage_after_hit(h), hit: h });
        },
        WalkEvent::Miss => {
            lemma_continuations_set_last(frames, max_depth, Frame { stage: Stage::Escaped, hit: top.hit });
        },
        WalkEvent::Lobe(s) => {
            assert(is_specular(frames[level].stage));
            assert(r > 0);
            let c = continuation_count_budget((r - 1) as nat);
            assert((r - 1) as nat == 0 ==> c == 0);
            assert((r - 1) as nat > 0 ==> c == 2 * (1 + continuation_count_budget(
                ((r - 1) as nat - 1) as nat,
            )));
            assert(stage_continuations(Stage::Trace, (r - 1) as nat) == c);
            let fresh = Frame { stage: Stage::Trace, hit: no_hit() };
            let (mask, suspended) = if top.stage == Stage::SampleReflect {
                (reflection_mask(), Stage::InReflect)
            } else {
                (transmission_mask(), Stage::InTransmit)
            };
            let rejected = if top.stage == Stage::SampleReflect {
                Stage::SampleTransmit
            } else {
                stage_after_scattering(top.hit)
            };
            if specular_rule(s, mask, remaining_at(max_depth, level)) is Continue {
                let mid = with_top_stage(frames, suspended);
                lemma_continuations_set_last(frames, max_depth, Frame { stage: suspended, hit: top.hit });
                lemma_continuations_push(mid, max_depth, fresh);
            } else {
                lemma_continuations_set_last(frames, max_depth, Frame { stage: rejected, hit: top.hit });
            }
        },
        WalkEvent::Done => {
            match top.stage {
                Stage::Escaped | Stage::Emission => {
                    lemma_continuations_set_last(frames, max_depth, Frame { stage: Stage::Return, hit: top.hit });
                },
                Stage::Direct => {
                    lemma_continuations_set_last(
                        frames,
                        max_depth,
                        Frame { stage: stage_after_direct(top.hit, remaining_at(max_depth, level)), hit: top.hit },
                    );
                },
                _ => {
                    let rest = frames.drop_last();
                    if rest.len() > 0 {
                        let parent = rest.last();
                        lemma_continuations_set_last(
                            rest,
                            max_depth,
                            Frame { stage: stage_after_child(parent), hit: parent.hit },
                        );
                    }
                },
            }
        },
    }
}

} // verus!

verus! {

/// In closed form: a walk started with depth `max_depth` traces at most
/// `2^(max_depth + 1) - 2` continuations, the full binary tree of
/// reflections and transmissions below the camera ray.
pub proof fn lemma_continuation_count_budget(max_depth: nat)
    ensures
        continuation_count_budget(max_depth) + 2 == pow2(max_depth + 1),
    decreases max_depth,
{
    if max_depth > 0 {
        lemma_continuation_count_budget((max_depth - 1) as nat);
        assert(pow2(max_depth + 1) == 2 * pow2(max_depth));
    } else {
        assert(pow2(1) == 2 * pow2(0));
    }
}

} // verus!
