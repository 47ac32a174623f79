use render_core::spectrum::Spectrum;
use render_core::task::RenderError;
use render_core::task::RenderTask;
use render_core::task::TaskAction;
use render_core::task::TaskEvent;

#[test]
fn task_without_sub_sampler_finishes_at_once() {
    let t = RenderTask::new(5, 8, false, 4);
    assert_eq!(t.action(), TaskAction::Finish);
    assert!(!t.accepts(&TaskEvent::Samples(0)));
}

#[test]
fn zero_weight_ray_is_reported_without_tracing() {
    let mut t = RenderTask::new(0, 1, true, 4);
    assert_eq!(t.action(), TaskAction::FetchSamples);
    assert_eq!(t.step(TaskEvent::Samples(1)), TaskAction::GenerateRay { sample: 0 });
    assert_eq!(t.step(TaskEvent::Weight(false)), TaskAction::ReportZero { sample: 0 });
    assert!(!t.accepts(&TaskEvent::Radiance(Spectrum::Positive)));
    assert_eq!(t.step(TaskEvent::Reported), TaskAction::FetchSamples);
    assert_eq!(t.step(TaskEvent::Samples(0)), TaskAction::Finish);
}

#[test]
fn invalid_radiance_aborts_the_render() {
    let mut t = RenderTask::new(3, 4, true, 8);
    assert_eq!(t.step(TaskEvent::Samples(2)), TaskAction::GenerateRay { sample: 0 });
    assert_eq!(t.step(TaskEvent::Weight(true)), TaskAction::Evaluate { sample: 0 });
    assert_eq!(t.step(TaskEvent::Radiance(Spectrum::Positive)), TaskAction::Report { sample: 0 });
    assert_eq!(t.step(TaskEvent::Reported), TaskAction::GenerateRay { sample: 1 });
    assert_eq!(t.step(TaskEvent::Weight(true)), TaskAction::Evaluate { sample: 1 });
    assert_eq!(
        t.step(TaskEvent::Radiance(Spectrum::Invalid)),
        TaskAction::Abort(RenderError::InvalidRadiance { task: 3, sample: 1 })
    );
    assert!(!t.accepts(&TaskEvent::Reported));
}

#[test]
fn batches_are_worked_through_in_order() {
    let mut t = RenderTask::new(1, 2, true, 3);
    assert!(!t.accepts(&TaskEvent::Samples(4)));
    let mut reports = Vec::new();
    let batches = [3usize, 2, 0];
    let mut next_batch = 0;
    let mut action = t.action();
    let mut weight = false;
    loop {
        let e = match action {
            TaskAction::FetchSamples => {
                next_batch += 1;
                TaskEvent::Samples(batches[next_batch - 1])
            }
            TaskAction::GenerateRay { .. } => {
                weight = !weight;
                TaskEvent::Weight(weight)
            }
            TaskAction::Evaluate { .. } => TaskEvent::Radiance(Spectrum::Black),
            TaskAction::ReportZero { sample } | TaskAction::Report { sample } => {
                reports.push(sample);
                TaskEvent::Reported
            }
            TaskAction::Finish => break,
            TaskAction::Abort(_) => panic!("no sample was corrupted"),
        };
        assert!(t.accepts(&e));
        action = t.step(e);
    }
    assert_eq!(reports, vec![0, 1, 2, 0, 1]);
}

#[test]
fn task_generator_follows_the_task_index() {
    let a = RenderTask::new(6, 16, true, 1);
    let b = RenderTask::new(6, 32, false, 9);
    let mut ra = a.new_rng();
    let mut rb = b.new_rng();
    assert_eq!(ra.next_u32(), rb.next_u32());
}
