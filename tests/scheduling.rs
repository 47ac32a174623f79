use render_core::integrator::SurfaceIntegrator;
use render_core::integrator::VolumeIntegrator;
use render_core::rng::PseudoRNG;
use render_core::rng::RNG;
use render_core::sampler_renderer::Camera;
use render_core::sampler_renderer::Renderer;
use render_core::sampler_renderer::Sampler;
use render_core::sampler_renderer::SamplerRenderer;
use render_core::scheduler::task_count;

#[test]
fn task_count_for_a_512_square_image_on_four_cpus() {
    assert_eq!(task_count(4, 512 * 512), 1024);
}

#[test]
fn task_count_is_driven_by_cpus_on_small_images() {
    // max(32 * 3, 0) = 96, rounded up to 128
    assert_eq!(task_count(3, 0), 128);
    assert_eq!(task_count(1, 100), 32);
}

#[test]
fn task_count_keeps_an_exact_power_of_two() {
    // max(32, 4096) = 4096 is already a power of two
    assert_eq!(task_count(1, 1024 * 1024), 4096);
    assert_eq!(task_count(2, 0), 64);
}

#[test]
fn task_count_rounds_up_just_above_a_power_of_two() {
    // max(32, 8448 / 256 = 33) = 33, rounded up to 64
    assert_eq!(task_count(1, 256 * 33), 64);
    assert_eq!(task_count(1, 256 * 33 + 255), 64);
}

#[test]
fn task_count_with_nothing_to_do_is_one() {
    assert_eq!(task_count(0, 0), 1);
    assert_eq!(task_count(0, 255), 1);
}

#[test]
fn task_count_at_the_largest_inputs() {
    // max(32 * (2^32 - 1), (2^64 - 1) / 256) = 2^56 - 1, rounded up to 2^56
    assert_eq!(task_count(u32::MAX, u64::MAX), 1u64 << 56);
}

#[test]
fn task_generators_are_reproducible() {
    let mut a = PseudoRNG::new(7);
    let mut b = PseudoRNG::new(7);
    for _ in 0..16 {
        assert_eq!(a.next_u32(), b.next_u32());
    }
}

#[test]
fn task_generators_differ_between_tasks() {
    let mut a = PseudoRNG::new(0);
    let mut b = PseudoRNG::new(1);
    let wa: Vec<u32> = (0..4).map(|_| a.next_u32()).collect();
    let wb: Vec<u32> = (0..4).map(|_| b.next_u32()).collect();
    assert_ne!(wa, wb);
}

#[test]
fn generator_step_is_the_documented_congruence() {
    let mut r = PseudoRNG::new(0x853c_49e6_748f_ea9b);
    // state 0 steps to the increment; the word is its high half
    assert_eq!(r.next_u32(), (1442695040888963407u64 >> 32) as u32);
    let mut t = PseudoRNG::new(0x853c_49e6_748f_ea9b);
    assert_eq!(t.uniform_u32(), (1442695040888963407u64 >> 32) as u32);
}

#[test]
fn camera_counts_pixels() {
    assert_eq!(Camera::new(512, 512).num_pixels(), 262144);
    assert_eq!(Camera::new(u32::MAX, u32::MAX).num_pixels(), (u32::MAX as u64) * (u32::MAX as u64));
}

#[test]
fn empty_renderer_plans_a_512_square_render() {
    let mut r = SamplerRenderer::new_empty();
    assert_eq!(r.camera, Camera::new(512, 512));
    assert_eq!(r.surface_integrator.max_depth(), 5);
    let plan = r.plan_render(4);
    assert_eq!(plan.num_threads, 4);
    assert_eq!(plan.num_tasks, 1024);
}

#[test]
fn planning_preprocesses_each_integrator() {
    let mut r = SamplerRenderer::new(
        Sampler::new(4, 16),
        Camera::new(64, 64),
        SurfaceIntegrator::whitted(2),
        VolumeIntegrator::new(),
    );
    let plan = Renderer::render(&mut r, 2);
    assert_eq!(plan.num_tasks, 64);
    match r.surface_integrator {
        SurfaceIntegrator::Whitted { base, surf } => {
            assert!(base.is_preprocessed());
            assert_eq!(surf.max_depth, 2);
        }
    }
    let task = r.task(&plan, 3, true);
    assert_eq!(task.capacity(), 16);
}
