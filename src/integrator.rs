//! Surface and volume integrators, and the specular continuation rule.

use vstd::prelude::*;

use crate::spectrum::Spectrum;

verus! {

/// Lobe-type bit: light scattered to the side it came from.
pub const BSDF_REFLECTION: u32 = 1;

/// Lobe-type bit: light passing through the surface.
pub const BSDF_TRANSMISSION: u32 = 2;

/// Lobe-type bit: a perfectly specular (delta) lobe.
pub const BSDF_SPECULAR: u32 = 16;

/// The lobes that the specular reflection term samples.
pub open spec fn reflection_mask() -> u32 {
    BSDF_REFLECTION | BSDF_SPECULAR
}

/// The lobes that the specular transmission term samples.
pub open spec fn transmission_mask() -> u32 {
    BSDF_TRANSMISSION | BSDF_SPECULAR
}

/// What the caller reports of one importance sample of a scattering
/// function: whether its density is positive, the class of its value, and
/// whether the sampled direction is perpendicular to the shading normal.
#[derive(Clone, Copy, Debug, PartialEq, Eq, Structural)]
pub struct LobeSample {
    pub pdf_positive: bool,
    pub value: Spectrum,
    pub cosine_zero: bool,
}

/// Why a specular sample contributes nothing.
#[derive(Clone, Copy, Debug, PartialEq, Eq, Structural)]
pub enum Rejection {
    /// The sampled density is zero or negative.
    NonPositivePdf,
    /// The scattering function is black in the sampled direction.
    BlackValue,
    /// The sampled direction grazes the surface.
    ZeroCosine,
}

/// Outcome of the specular continuation rule.
#[derive(Clone, Copy, Debug, PartialEq, Eq, Structural)]
pub enum SpecularStep {
    /// The term is exactly zero.
    Rejected(Rejection),
    /// Trace the continuation ray in the sampled direction with the given
    /// remaining depth, and weight its radiance by `f * |cos| / pdf`.
    Continue { mask: u32, remaining_depth: usize },
}

/// The rule: a sample with a positive density, a non-black value and a
/// non-grazing direction is continued one level deeper; any other is zero.
pub open spec fn specular_rule(sample: LobeSample, mask: u32, remaining_depth: usize) -> SpecularStep
    recommends
        remaining_depth > 0,
{
    if !sample.pdf_positive {
        SpecularStep::Rejected(Rejection::NonPositivePdf)
    } else if sample.value.spec_is_black() {
        SpecularStep::Rejected(Rejection::BlackValue)
    } else if sample.cosine_zero {
        SpecularStep::Rejected(Rejection::ZeroCosine)
    } else {
        SpecularStep::Continue { mask, remaining_depth: (remaining_depth - 1) as usize }
    }
}

/// Applies the specular continuation rule to a sample drawn from the lobes
/// in `mask`, at a hit point with `remaining_depth` levels left.
pub fn process_specular(sample: &LobeSample, mask: u32, remaining_depth: usize) -> (r: SpecularStep)
    requires
        remaining_depth > 0,
    ensures
        r == specular_rule(*sample, mask, remaining_depth),
        r is Continue <==> (sample.pdf_positive && !sample.value.spec_is_black()
            && !sample.cosine_zero),
{
    if !sample.pdf_positive {
        SpecularStep::Rejected(Rejection::NonPositivePdf)
    } else if sample.value.is_black() {
        SpecularStep::Rejected(Rejection::BlackValue)
    } else if sample.cosine_zero {
        SpecularStep::Rejected(Rejection::ZeroCosine)
    } else {
        SpecularStep::Continue { mask, remaining_depth: remaining_depth - 1 }
    }
}

/// The specular reflection term: the rule on a sample of the
/// specular-reflection lobes.
pub fn specular_reflect(sample: &LobeSample, remaining_depth: usize) -> (r: SpecularStep)
    requires
        remaining_depth > 0,
    ensures
        r == specular_rule(*sample, reflection_mask(), remaining_depth),
{
    process_specular(sample, BSDF_REFLECTION | BSDF_SPECULAR, remaining_depth)
}

/// The specular transmission term: the rule on a sample of the
/// specular-transmission lobes.
pub fn specular_transmit(sample: &LobeSample, remaining_depth: usize) -> (r: SpecularStep)
    requires
        remaining_depth > 0,
    ensures
        r == specular_rule(*sample, transmission_mask(), remaining_depth),
{
    process_specular(sample, BSDF_TRANSMISSION | BSDF_SPECULAR, remaining_depth)
}

} // verus!

verus! {

/// Counts of per-sample random streams that integrators ask the sampler for.
#[derive(Clone, Debug)]
pub struct SampleRequest {
    pub one_d: Vec<usize>,
    pub two_d: Vec<usize>,
}

/// State that every integrator shares: whether its scene preprocessing ran.
#[derive(Clone, Copy, Debug, PartialEq, Eq, Structural)]
pub struct Integrator {
    preprocessed: bool,
}

impl Integrator {
    pub closed spec fn spec_is_preprocessed(&self) -> bool {
        self.preprocessed
    }

    /// An integrator whose preprocessing has not run yet.
    pub fn new() -> (r: Integrator)
        ensures
            !r.spec_is_preprocessed(),
    {
        Integrator { preprocessed: false }
    }

    /// Whether the scene preprocessing ran.
    #[verifier::when_used_as_spec(spec_is_preprocessed)]
    pub fn is_preprocessed(&self) -> (r: bool)
        ensures
            r == self.spec_is_preprocessed(),
    {
        self.preprocessed
    }

    /// The scene preprocessing hook; running it again changes nothing.
    pub fn preprocess(&mut self)
        ensures
            final(self).spec_is_preprocessed(),
    {
        self.preprocessed = true;
    }
}

/// The recursive surface integrator's immutable setting.
#[derive(Clone, Copy, Debug, PartialEq, Eq, Structural)]
pub struct WhittedIntegrator {
    pub max_depth: usize,
}

impl WhittedIntegrator {
    pub fn new(max_depth: usize) -> (r: WhittedIntegrator)
        ensures
            r.max_depth == max_depth,
    {
        WhittedIntegrator { max_depth }
    }
}

/// What the caller found where a ray hit the scene.
#[derive(Clone, Copy, Debug, PartialEq, Eq, Structural)]
pub struct Hit {
    /// The surface yields a usable scattering function.
    pub has_bsdf: bool,
    /// The hit primitive carries an area light.
    pub emissive: bool,
}

/// The terms that make up the radiance leaving a hit point.
#[derive(Clone, Copy, Debug, PartialEq, Eq, Structural)]
pub struct SurfacePlan {
    /// Sample the scene's lights.
    pub direct_lighting: bool,
    /// Add the specular reflection and transmission terms.
    pub specular: bool,
    /// Add the primitive's own emission.
    pub emission: bool,
}

/// The surface terms at a hit with `remaining_depth` levels left: without a
/// scattering function only emission remains; specular terms need a level.
pub open spec fn surface_plan(hit: Hit, remaining_depth: usize) -> SurfacePlan {
    SurfacePlan {
        direct_lighting: hit.has_bsdf,
        specular: hit.has_bsdf && remaining_depth > 0,
        emission: hit.emissive,
    }
}

/// The strategies for the radiance leaving surfaces.
#[derive(Clone, Copy, Debug, PartialEq, Eq, Structural)]
pub enum SurfaceIntegrator {
    Whitted { base: Integrator, surf: WhittedIntegrator },
}

impl SurfaceIntegrator {
    /// The recursive integrator that follows specular bounces at most
    /// `max_depth` levels deep.
    pub fn whitted(max_depth: usize) -> (r: SurfaceIntegrator)
        ensures
            r.spec_max_depth() == max_depth,
            !r.spec_is_preprocessed(),
    {
        SurfaceIntegrator::Whitted { base: Integrator::new(), surf: WhittedIntegrator::new(max_depth) }
    }

    pub open spec fn spec_max_depth(&self) -> usize {
        match *self {
            SurfaceIntegrator::Whitted { surf, .. } => surf.max_depth,
        }
    }

    pub open spec fn spec_is_preprocessed(&self) -> bool {
        match *self {
            SurfaceIntegrator::Whitted { base, .. } => base.spec_is_preprocessed(),
        }
    }

    /// The number of specular levels that one camera ray may follow.
    #[verifier::when_used_as_spec(spec_max_depth)]
    pub fn max_depth(&self) -> (r: usize)
        ensures
            r == self.spec_max_depth(),
    {
        match self {
            SurfaceIntegrator::Whitted { surf, .. } => surf.max_depth,
        }
    }

    /// The terms to evaluate at a hit with `remaining_depth` levels left.
    pub fn li(&self, hit: &Hit, remaining_depth: usize) -> (r: SurfacePlan)
        ensures
            r == surface_plan(*hit, remaining_depth),
    {
        match self {
            SurfaceIntegrator::Whitted { .. } => SurfacePlan {
                direct_lighting: hit.has_bsdf,
                specular: hit.has_bsdf && remaining_depth > 0,
                emission: hit.emissive,
            },
        }
    }

    /// Runs the scene preprocessing; the setting is kept.
    pub fn preprocess(&mut self)
        ensures
            final(self).spec_is_preprocessed(),
            final(self).spec_max_depth() == old(self).spec_max_depth(),
    {
        match self {
            SurfaceIntegrator::Whitted { base, .. } => base.preprocess(),
        }
    }

    /// The recursive integrator draws its specular samples from the task's
    /// generator and asks the sampler for no streams of its own.
    pub fn request_samples(&self, request: &mut SampleRequest)
        ensures
            final(request).one_d@ == old(request).one_d@,
            final(request).two_d@ == old(request).two_d@,
    {
        match self {
            SurfaceIntegrator::Whitted { .. } => {},
        }
    }
}

/// The integrator for participating media. With no medium in the scene it
/// passes radiance through unchanged and adds none.
#[derive(Clone, Copy, Debug, PartialEq, Eq, Structural)]
pub struct VolumeIntegrator {
    base: Integrator,
}

impl VolumeIntegrator {
    pub fn new() -> (r: VolumeIntegrator)
        ensures
            !r.spec_is_preprocessed(),
    {
        VolumeIntegrator { base: Integrator::new() }
    }

    pub closed spec fn spec_is_preprocessed(&self) -> bool {
        self.base.spec_is_preprocessed()
    }

    /// The radiance that the medium adds along a ray: none.
    pub fn li(&self) -> (r: Spectrum)
        ensures
            r == Spectrum::Black,
    {
        Spectrum::zero()
    }

    /// Runs the scene preprocessing.
    pub fn preprocess(&mut self)
        ensures
            final(self).spec_is_preprocessed(),
    {
        self.base.preprocess();
    }

    /// Asks the sampler for no streams.
    pub fn request_samples(&self, request: &mut SampleRequest)
        ensures
            final(request).one_d@ == old(request).one_d@,
            final(request).two_d@ == old(request).two_d@,
    {
    }
}

} // verus!
