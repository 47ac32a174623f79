//! The renderer that drives sampling: its setting, its preprocessing pass,
//! and the tasks and radiance walks it hands out.

use vstd::prelude::*;

use crate::integrator::{SurfaceIntegrator, VolumeIntegrator};
use crate::radiance::{no_hit, Frame, RadianceWalk, Stage};
use crate::scheduler::{is_next_pow2, task_base, task_count};
use crate::task::{RenderTask, TaskPhase};

verus! {

/// The image that the camera fills.
#[derive(Clone, Copy, Debug, PartialEq, Eq, Structural)]
pub struct Camera {
    pub x_resolution: u32,
    pub y_resolution: u32,
}

impl Camera {
    pub fn new(x_resolution: u32, y_resolution: u32) -> (r: Camera)
        ensures
            r.x_resolution == x_resolution,
            r.y_resolution == y_resolution,
    {
        Camera { x_resolution, y_resolution }
    }

    /// The number of pixels of the image.
    pub fn num_pixels(&self) -> (r: u64)
        ensures
            r == self.x_resolution * self.y_resolution,
    {
        assert(self.x_resolution * self.y_resolution <= 0xffff_ffff * 0xffff_ffff) by (nonlinear_arith);
        (self.x_resolution as u64) * (self.y_resolution as u64)
    }
}

/// What the renderer reads of the sampler's setting.
#[derive(Clone, Copy, Debug, PartialEq, Eq, Structural)]
pub struct Sampler {
    pub samples_per_pixel: u32,
    /// The most samples that one call hands out.
    pub maximum_sample_count: usize,
}

impl Sampler {
    pub fn new(samples_per_pixel: u32, maximum_sample_count: usize) -> (r: Sampler)
        ensures
            r.samples_per_pixel == samples_per_pixel,
            r.maximum_sample_count == maximum_sample_count,
    {
        Sampler { samples_per_pixel, maximum_sample_count }
    }
}

/// How a render is laid out: a pool of `num_threads` threads runs
/// `num_tasks` independent tasks.
#[derive(Clone, Copy, Debug, PartialEq, Eq, Structural)]
pub struct RenderPlan {
    pub num_threads: u32,
    pub num_tasks: u64,
}

/// A renderer.
pub trait Renderer {
    /// Prepares a render on `num_cpus` threads.
    fn render(&mut self, num_cpus: u32) -> RenderPlan;

    /// Starts the radiance evaluation of one camera ray.
    fn li(&self) -> RadianceWalk;
}

/// The renderer that evaluates camera rays sample by sample.
#[derive(Clone, Copy, Debug, PartialEq, Eq, Structural)]
pub struct SamplerRenderer {
    pub sampler: Sampler,
    pub camera: Camera,
    pub surface_integrator: SurfaceIntegrator,
    pub volume_integrator: VolumeIntegrator,
}

/// The default depth of specular recursion.
pub const DEFAULT_MAX_DEPTH: usize = 5;

impl SamplerRenderer {
    pub fn new(
        sampler: Sampler,
        cam: Camera,
        surf: SurfaceIntegrator,
        vol: VolumeIntegrator,
    ) -> (r: SamplerRenderer)
        ensures
            r.sampler == sampler,
            r.camera == cam,
            r.surface_integrator == surf,
            r.volume_integrator == vol,
    {
        SamplerRenderer { sampler, camera: cam, surface_integrator: surf, volume_integrator: vol }
    }

    /// A renderer for a 512 by 512 image, one sample per pixel, with the
    /// recursive surface integrator at its default depth.
    pub fn new_empty() -> (r: SamplerRenderer)
        ensures
            r.sampler == (Sampler { samples_per_pixel: 1, maximum_sample_count: 1 }),
            r.camera == (Camera { x_resolution: 512, y_resolution: 512 }),
            r.surface_integrator.spec_max_depth() == DEFAULT_MAX_DEPTH,
            !r.surface_integrator.spec_is_preprocessed(),
            !r.volume_integrator.spec_is_preprocessed(),
    {
        SamplerRenderer {
            sampler: Sampler::new(1, 1),
            camera: Camera::new(512, 512),
            surface_integrator: SurfaceIntegrator::whitted(DEFAULT_MAX_DEPTH),
            volume_integrator: VolumeIntegrator::new(),
        }
    }

    /// Runs each integrator's scene preprocessing once and lays out the
    /// render: one thread per cpu, and the task count of `task_count`.
    pub fn plan_render(&mut self, num_cpus: u32) -> (r: RenderPlan)
        ensures
            final(self).surface_integrator.spec_is_preprocessed(),
            final(self).volume_integrator.spec_is_preprocessed(),
            final(self).surface_integrator.spec_max_depth()
                == old(self).surface_integrator.spec_max_depth(),
            final(self).sampler == old(self).sampler,
            final(self).camera == old(self).camera,
            r.num_threads == num_cpus,
            is_next_pow2(
                r.num_tasks as int,
                task_base(
                    num_cpus as int,
                    old(self).camera.x_resolution * old(self).camera.y_resolution,
                ),
            ),
    {
        self.surface_integrator.preprocess();
        self.volume_integrator.preprocess();
        let num_pixels = self.camera.num_pixels();
        RenderPlan { num_threads: num_cpus, num_tasks: task_count(num_cpus, num_pixels) }
    }

    /// Task `task_index` of the plan, with batches as large as the sampler
    /// hands out.
    pub fn task(&self, plan: &RenderPlan, task_index: u64, has_sub_sampler: bool) -> (r:
        RenderTask)
        requires
            task_index < plan.num_tasks,
        ensures
            r.wf(),
            r.spec_task_index() == task_index,
            r.spec_num_tasks() == plan.num_tasks,
            r.spec_capacity() == self.sampler.maximum_sample_count,
            r.spec_phase() == (if has_sub_sampler {
                TaskPhase::Fetch
            } else {
                TaskPhase::Done
            }),
            r.spec_fetched() == 0,
            r.spec_reported() == 0,
    {
        RenderTask::new(task_index, plan.num_tasks, has_sub_sampler, self.sampler.maximum_sample_count)
    }

    /// Starts the radiance evaluation of one camera ray.
    pub fn start_ray(&self) -> (r: RadianceWalk)
        ensures
            r.wf(),
            r.spec_max_depth() == self.surface_integrator.spec_max_depth(),
            r.spec_frames() == seq![(Frame { stage: Stage::Trace, hit: no_hit() })],
    {
        RadianceWalk::new(&self.surface_integrator)
    }
}

impl Renderer for SamplerRenderer {
    fn render(&mut self, num_cpus: u32) -> (r: RenderPlan)
        ensures
            final(self).surface_integrator.spec_is_preprocessed(),
            final(self).volume_integrator.spec_is_preprocessed(),
            final(self).surface_integrator.spec_max_depth()
                == old(self).surface_integrator.spec_max_depth(),
            final(self).sampler == old(self).sampler,
            final(self).camera == old(self).camera,
            r.num_threads == num_cpus,
            is_next_pow2(
                r.num_tasks as int,
                task_base(
                    num_cpus as int,
                    old(self).camera.x_resolution * old(self).camera.y_resolution,
                ),
            ),
    {
        self.plan_render(num_cpus)
    }

    fn li(&self) -> (r: RadianceWalk)
        ensures
            r.wf(),
            r.spec_max_depth() == self.surface_integrator.spec_max_depth(),
            r.spec_frames() == seq![(Frame { stage: Stage::Trace, hit: no_hit() })],
    {
        self.start_ray()
    }
}

} // verus!
