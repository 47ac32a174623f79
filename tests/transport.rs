use render_core::integrator::process_specular;
use render_core::integrator::specular_reflect;
use render_core::integrator::specular_transmit;
use render_core::integrator::Hit;
use render_core::integrator::LobeSample;
use render_core::integrator::Rejection;
use render_core::integrator::SampleRequest;
use render_core::integrator::SpecularStep;
use render_core::integrator::SurfaceIntegrator;
use render_core::integrator::SurfacePlan;
use render_core::integrator::VolumeIntegrator;
use render_core::integrator::BSDF_REFLECTION;
use render_core::integrator::BSDF_SPECULAR;
use render_core::integrator::BSDF_TRANSMISSION;
use render_core::radiance::RadianceWalk;
use render_core::radiance::WalkAction;
use render_core::radiance::WalkEvent;
use render_core::spectrum::Spectrum;

fn good_sample() -> LobeSample {
    LobeSample { pdf_positive: true, value: Spectrum::Positive, cosine_zero: false }
}

#[test]
fn spectrum_classes() {
    assert_eq!(Spectrum::classify(true, true), Spectrum::Black);
    assert_eq!(Spectrum::classify(true, false), Spectrum::Positive);
    assert_eq!(Spectrum::classify(false, false), Spectrum::Invalid);
    assert_eq!(Spectrum::classify(false, true), Spectrum::Invalid);
    assert!(Spectrum::zero().is_black());
    assert!(Spectrum::zero().is_valid());
    assert!(!Spectrum::Invalid.is_valid());
    assert!(!Spectrum::Positive.is_black());
}

#[test]
fn accepted_reflection_continues_one_level_deeper() {
    assert_eq!(
        specular_reflect(&good_sample(), 3),
        SpecularStep::Continue { mask: BSDF_REFLECTION | BSDF_SPECULAR, remaining_depth: 2 }
    );
    assert_eq!(
        specular_transmit(&good_sample(), 1),
        SpecularStep::Continue { mask: BSDF_TRANSMISSION | BSDF_SPECULAR, remaining_depth: 0 }
    );
    assert_eq!(BSDF_REFLECTION | BSDF_SPECULAR, 17);
    assert_eq!(BSDF_TRANSMISSION | BSDF_SPECULAR, 18);
}

#[test]
fn specular_rejects_non_positive_pdf() {
    let s = LobeSample { pdf_positive: false, ..good_sample() };
    assert_eq!(specular_reflect(&s, 2), SpecularStep::Rejected(Rejection::NonPositivePdf));
    assert_eq!(specular_transmit(&s, 2), SpecularStep::Rejected(Rejection::NonPositivePdf));
}

#[test]
fn specular_rejects_black_value() {
    let s = LobeSample { value: Spectrum::Black, ..good_sample() };
    assert_eq!(specular_reflect(&s, 2), SpecularStep::Rejected(Rejection::BlackValue));
    assert_eq!(process_specular(&s, 17, 2), SpecularStep::Rejected(Rejection::BlackValue));
}

#[test]
fn specular_rejects_grazing_direction() {
    let s = LobeSample { cosine_zero: true, ..good_sample() };
    assert_eq!(specular_transmit(&s, 2), SpecularStep::Rejected(Rejection::ZeroCosine));
}

#[test]
fn surface_plan_follows_depth_and_bsdf() {
    let w = SurfaceIntegrator::whitted(2);
    let shaded = Hit { has_bsdf: true, emissive: false };
    let bare = Hit { has_bsdf: false, emissive: true };
    assert_eq!(
        w.li(&shaded, 1),
        SurfacePlan { direct_lighting: true, specular: true, emission: false }
    );
    assert_eq!(
        w.li(&shaded, 0),
        SurfacePlan { direct_lighting: true, specular: false, emission: false }
    );
    assert_eq!(
        w.li(&bare, 1),
        SurfacePlan { direct_lighting: false, specular: false, emission: true }
    );
}

#[test]
fn integrators_request_no_streams_and_preprocess() {
    let mut w = SurfaceIntegrator::whitted(4);
    let mut v = VolumeIntegrator::new();
    let mut req = SampleRequest { one_d: vec![1], two_d: vec![2, 3] };
    w.request_samples(&mut req);
    v.request_samples(&mut req);
    assert_eq!(req.one_d, vec![1]);
    assert_eq!(req.two_d, vec![2, 3]);
    w.preprocess();
    v.preprocess();
    assert_eq!(w.max_depth(), 4);
    assert_eq!(v.li(), Spectrum::Black);
}

/// Drives a walk through a scene of two facing mirrors: every ray hits a
/// shaded, non-emitting surface, reflection is always accepted and
/// transmission always black. Returns the actions in order.
fn mirror_walk(max_depth: usize) -> Vec<WalkAction> {
    let mut walk = RadianceWalk::new(&SurfaceIntegrator::whitted(max_depth));
    let mut actions = vec![walk.action()];
    let mut guard = 0;
    while !walk.is_finished() {
        let e = match walk.action() {
            WalkAction::Trace { .. } | WalkAction::Continue { .. } => {
                WalkEvent::Hit(Hit { has_bsdf: true, emissive: false })
            }
            WalkAction::SampleLobe { mask, .. } => {
                if mask & BSDF_REFLECTION != 0 {
                    WalkEvent::Lobe(good_sample())
                } else {
                    WalkEvent::Lobe(LobeSample { value: Spectrum::Black, ..good_sample() })
                }
            }
            _ => WalkEvent::Done,
        };
        assert!(walk.accepts(&e));
        actions.push(walk.step(e));
        guard += 1;
        assert!(guard < 10_000);
    }
    actions
}

#[test]
fn mirror_recursion_stops_at_max_depth() {
    for d in 0..6usize {
        let actions = mirror_walk(d);
        let continuations: Vec<usize> = actions
            .iter()
            .filter_map(|a| match a {
                WalkAction::Continue { level, .. } => Some(*level),
                _ => None,
            })
            .collect();
        assert_eq!(continuations, (1..=d).collect::<Vec<usize>>());
        assert!(continuations.len() <= d + 1);
        // at most 6 + 2 * c(d) answers, with c(0) = 0 and c(r) = 6 + 2 * c(r - 1)
        let mut c = 0usize;
        for _ in 0..d {
            c = 6 + 2 * c;
        }
        assert!(actions.len() - 1 <= 6 + 2 * c);
        assert_eq!(*actions.last().unwrap(), WalkAction::Finished);
    }
}

#[test]
fn mirror_walk_at_depth_one_in_order() {
    let m = BSDF_REFLECTION | BSDF_SPECULAR;
    let t = BSDF_TRANSMISSION | BSDF_SPECULAR;
    assert_eq!(
        mirror_walk(1),
        vec![
            WalkAction::Trace { level: 0 },
            WalkAction::DirectLighting { level: 0 },
            WalkAction::SampleLobe { level: 0, mask: m },
            WalkAction::Continue { level: 1, mask: m },
            WalkAction::DirectLighting { level: 1 },
            WalkAction::Return { level: 1 },
            WalkAction::SampleLobe { level: 0, mask: t },
            WalkAction::Return { level: 0 },
            WalkAction::Finished,
        ]
    );
}

#[test]
fn escaped_ray_takes_the_background() {
    let mut walk = RadianceWalk::new(&SurfaceIntegrator::whitted(3));
    assert_eq!(walk.action(), WalkAction::Trace { level: 0 });
    assert!(!walk.accepts(&WalkEvent::Done));
    assert_eq!(walk.step(WalkEvent::Miss), WalkAction::Background { level: 0 });
    assert_eq!(walk.step(WalkEvent::Done), WalkAction::Return { level: 0 });
    assert_eq!(walk.step(WalkEvent::Done), WalkAction::Finished);
    assert!(walk.is_finished());
}

#[test]
fn hit_without_bsdf_only_adds_emission() {
    let mut walk = RadianceWalk::new(&SurfaceIntegrator::whitted(3));
    let hit = Hit { has_bsdf: false, emissive: true };
    assert_eq!(walk.step(WalkEvent::Hit(hit)), WalkAction::Emission { level: 0 });
    assert_eq!(walk.step(WalkEvent::Done), WalkAction::Return { level: 0 });
    assert_eq!(walk.step(WalkEvent::Done), WalkAction::Finished);
}

#[test]
fn glass_follows_both_lobes_and_adds_emission_last() {
    let m = BSDF_REFLECTION | BSDF_SPECULAR;
    let t = BSDF_TRANSMISSION | BSDF_SPECULAR;
    let mut walk = RadianceWalk::new(&SurfaceIntegrator::whitted(1));
    let glass = Hit { has_bsdf: true, emissive: true };
    assert_eq!(walk.step(WalkEvent::Hit(glass)), WalkAction::DirectLighting { level: 0 });
    assert_eq!(walk.step(WalkEvent::Done), WalkAction::SampleLobe { level: 0, mask: m });
    assert_eq!(walk.step(WalkEvent::Lobe(good_sample())), WalkAction::Continue { level: 1, mask: m });
    assert_eq!(walk.step(WalkEvent::Miss), WalkAction::Background { level: 1 });
    assert_eq!(walk.step(WalkEvent::Done), WalkAction::Return { level: 1 });
    assert_eq!(walk.step(WalkEvent::Done), WalkAction::SampleLobe { level: 0, mask: t });
    assert_eq!(walk.step(WalkEvent::Lobe(good_sample())), WalkAction::Continue { level: 1, mask: t });
    // the continuation has no level left: no specular terms below it
    assert_eq!(walk.step(WalkEvent::Hit(glass)), WalkAction::DirectLighting { level: 1 });
    assert_eq!(walk.step(WalkEvent::Done), WalkAction::Emission { level: 1 });
    assert_eq!(walk.step(WalkEvent::Done), WalkAction::Return { level: 1 });
    assert_eq!(walk.step(WalkEvent::Done), WalkAction::Emission { level: 0 });
    assert_eq!(walk.step(WalkEvent::Done), WalkAction::Return { level: 0 });
    assert_eq!(walk.step(WalkEvent::Done), WalkAction::Finished);
}

#[test]
fn glass_walk_traces_the_full_tree_of_continuations() {
    for d in 0..5usize {
        let mut walk = RadianceWalk::new(&SurfaceIntegrator::whitted(d));
        let mut continuations = 0usize;
        while !walk.is_finished() {
            let e = match walk.action() {
                WalkAction::Trace { .. } => WalkEvent::Hit(Hit { has_bsdf: true, emissive: false }),
                WalkAction::Continue { .. } => {
                    continuations += 1;
                    WalkEvent::Hit(Hit { has_bsdf: true, emissive: false })
                }
                WalkAction::SampleLobe { .. } => WalkEvent::Lobe(good_sample()),
                _ => WalkEvent::Done,
            };
            walk.step(e);
        }
        // both lobes accepted at every level: 2^(d + 1) - 2 continuations
        assert_eq!(continuations, (1usize << (d + 1)) - 2);
    }
}
