//! One rendering task: the loop that pulls sample batches from the task's
//! sub-sampler, has a camera ray generated and evaluated for each sample,
//! and reports each sample's result exactly once.
//!
//! The caller performs the outside work (sampler, camera, radiance
//! evaluation, accumulation); the task decides what comes next.

use vstd::prelude::*;

use crate::rng::{task_seed, PseudoRNG};
use crate::spectrum::Spectrum;

verus! {

/// A fatal condition of a render.
#[derive(Clone, Copy, Debug, PartialEq, Eq, Structural)]
pub enum RenderError {
    /// The radiance computed for a sample is not finite or is negative.
    InvalidRadiance { task: u64, sample: usize },
}

/// Where a task stands.
#[derive(Clone, Copy, Debug, PartialEq, Eq, Structural)]
pub enum TaskPhase {
    /// Waiting for the next batch of samples.
    Fetch,
    /// Waiting for the camera ray of the current sample.
    Camera,
    /// Waiting for the radiance along the current sample's ray.
    Evaluate,
    /// Waiting for the zero result of the current sample to be reported.
    ReportZero,
    /// Waiting for the evaluated result of the current sample to be reported.
    Report,
    /// The sub-sampler is exhausted, or the task had none.
    Done,
    /// A corrupted radiance value stopped the task.
    Failed,
}

/// The outside work that a task waits for.
#[derive(Clone, Copy, Debug, PartialEq, Eq, Structural)]
pub enum TaskAction {
    /// Refill the sample buffer from the sub-sampler; answer `Samples`.
    FetchSamples,
    /// Generate the camera ray of `sample`, scale its differentials by the
    /// inverse square root of the samples per pixel; answer `Weight`.
    GenerateRay { sample: usize },
    /// Evaluate the radiance along the ray of `sample` and scale it by the
    /// ray's weight; answer `Radiance`.
    Evaluate { sample: usize },
    /// Report zero radiance, zero transmittance and an empty intersection
    /// for `sample`; answer `Reported`.
    ReportZero { sample: usize },
    /// Report the evaluated radiance, transmittance and intersection of
    /// `sample`; answer `Reported`.
    Report { sample: usize },
    /// The task is over.
    Finish,
    /// The render must stop.
    Abort(RenderError),
}

/// What the caller answers after performing an action.
#[derive(Clone, Copy, Debug, PartialEq, Eq, Structural)]
pub enum TaskEvent {
    /// The sub-sampler filled this many samples; zero when it is exhausted.
    Samples(usize),
    /// Whether the camera ray's weight is positive.
    Weight(bool),
    /// The scaled radiance of the current sample.
    Radiance(Spectrum),
    /// The current sample's result was reported.
    Reported,
}

/// The phases in which a batch is being worked through.
pub open spec fn in_batch(p: TaskPhase) -> bool {
    ||| p == TaskPhase::Camera
    ||| p == TaskPhase::Evaluate
    ||| p == TaskPhase::ReportZero
    ||| p == TaskPhase::Report
    ||| p == TaskPhase::Failed
}

/// The answers that a phase admits.
pub open spec fn task_event_fits(p: TaskPhase, capacity: usize, e: TaskEvent) -> bool {
    match p {
        TaskPhase::Fetch => e is Samples && e->Samples_0 <= capacity,
        TaskPhase::Camera => e is Weight,
        TaskPhase::Evaluate => e is Radiance,
        TaskPhase::ReportZero | TaskPhase::Report => e is Reported,
        _ => false,
    }
}

/// A rendering task.
pub struct RenderTask {
    task_index: u64,
    num_tasks: u64,
    capacity: usize,
    batch: usize,
    cursor: usize,
    phase: TaskPhase,
    fetched: Ghost<nat>,
    reported: Ghost<nat>,
}

impl RenderTask {
    pub closed spec fn spec_task_index(&self) -> u64 {
        self.task_index
    }

    pub closed spec fn spec_num_tasks(&self) -> u64 {
        self.num_tasks
    }

    /// The most samples that one batch holds.
    pub closed spec fn spec_capacity(&self) -> usize {
        self.capacity
    }

    /// The number of samples in the current batch.
    pub closed spec fn spec_batch(&self) -> usize {
        self.batch
    }

    /// The current sample of the batch.
    pub closed spec fn spec_cursor(&self) -> usize {
        self.cursor
    }

    pub closed spec fn spec_phase(&self) -> TaskPhase {
        self.phase
    }

    /// All samples that the sub-sampler handed out so far.
    pub closed spec fn spec_fetched(&self) -> nat {
        self.fetched@
    }

    /// All samples whose result was reported so far.
    pub closed spec fn spec_reported(&self) -> nat {
        self.reported@
    }

    /// Every sample before the cursor is reported, none after it; outside a
    /// batch, every sample handed out is reported.
    pub open spec fn wf(&self) -> bool {
        &&& self.spec_task_index() < self.spec_num_tasks()
        &&& in_batch(self.spec_phase()) ==> {
            &&& self.spec_cursor() < self.spec_batch()
            &&& self.spec_batch() <= self.spec_capacity()
            &&& self.spec_reported() + self.spec_batch() - self.spec_cursor()
                == self.spec_fetched()
        }
        &&& !in_batch(self.spec_phase()) ==> self.spec_reported() == self.spec_fetched()
    }

    /// The action that the task waits for.
    pub open spec fn spec_action(&self) -> TaskAction {
        match self.spec_phase() {
            TaskPhase::Fetch => TaskAction::FetchSamples,
            TaskPhase::Camera => TaskAction::GenerateRay { sample: self.spec_cursor() },
            TaskPhase::Evaluate => TaskAction::Evaluate { sample: self.spec_cursor() },
            TaskPhase::ReportZero => TaskAction::ReportZero { sample: self.spec_cursor() },
            TaskPhase::Report => TaskAction::Report { sample: self.spec_cursor() },
            TaskPhase::Done => TaskAction::Finish,
            TaskPhase::Failed => TaskAction::Abort(
                RenderError::InvalidRadiance {
                    task: self.spec_task_index(),
                    sample: self.spec_cursor(),
                },
            ),
        }
    }

    /// Task `task_index` of `num_tasks`, with batches of at most `capacity`
    /// samples. A task whose index maps to no tile of the image has no
    /// sub-sampler and is over at once, contributing nothing.
    pub fn new(task_index: u64, num_tasks: u64, has_sub_sampler: bool, capacity: usize) -> (r:
        RenderTask)
        requires
            task_index < num_tasks,
        ensures
            r.wf(),
            r.spec_task_index() == task_index,
            r.spec_num_tasks() == num_tasks,
            r.spec_capacity() == capacity,
            r.spec_phase() == (if has_sub_sampler {
                TaskPhase::Fetch
            } else {
                TaskPhase::Done
            }),
            r.spec_fetched() == 0,
            r.spec_reported() == 0,
    {
        RenderTask {
            task_index,
            num_tasks,
            capacity,
            batch: 0,
            cursor: 0,
            phase: if has_sub_sampler {
                TaskPhase::Fetch
            } else {
                TaskPhase::Done
            },
            fetched: Ghost(0),
            reported: Ghost(0),
        }
    }

    /// The task's own generator, seeded from its index alone.
    pub fn new_rng(&self) -> (r: PseudoRNG)
        ensures
            r@ == task_seed(self.spec_task_index()),
    {
        PseudoRNG::new(self.task_index)
    }

    /// The most samples that one batch holds.
    pub fn capacity(&self) -> (r: usize)
        ensures
            r == self.spec_capacity(),
    {
        self.capacity
    }

    /// The action that the task waits for.
    pub fn action(&self) -> (r: TaskAction)
        ensures
            r == self.spec_action(),
    {
        match self.phase {
            TaskPhase::Fetch => TaskAction::FetchSamples,
            TaskPhase::Camera => TaskAction::GenerateRay { sample: self.cursor },
            TaskPhase::Evaluate => TaskAction::Evaluate { sample: self.cursor },
            TaskPhase::ReportZero => TaskAction::ReportZero { sample: self.cursor },
            TaskPhase::Report => TaskAction::Report { sample: self.cursor },
            TaskPhase::Done => TaskAction::Finish,
            TaskPhase::Failed => TaskAction::Abort(
                RenderError::InvalidRadiance { task: self.task_index, sample: self.cursor },
            ),
        }
    }

    /// Whether the pending action admits the answer `e`.
    pub fn accepts(&self, e: &TaskEvent) -> (r: bool)
        ensures
            r == task_event_fits(self.spec_phase(), self.spec_capacity(), *e),
    {
        match self.phase {
            TaskPhase::Fetch => match e {
                TaskEvent::Samples(n) => *n <= self.capacity,
                _ => false,
            },
            TaskPhase::Camera => match e {
                TaskEvent::Weight(_) => true,
                _ => false,
            },
            TaskPhase::Evaluate => match e {
                TaskEvent::Radiance(_) => true,
                _ => false,
            },
            TaskPhase::ReportZero | TaskPhase::Report => match e {
                TaskEvent::Reported => true,
                _ => false,
            },
            _ => false,
        }
    }

    /// Takes the answer to the pending action and moves to the next one.
    pub fn step(&mut self, e: TaskEvent) -> (r: TaskAction)
        requires
            old(self).wf(),
            task_event_fits(old(self).spec_phase(), old(self).spec_capacity(), e),
        ensures
            final(self).wf(),
            r == final(self).spec_action(),
            final(self).spec_task_index() == old(self).spec_task_index(),
            final(self).spec_num_tasks() == old(self).spec_num_tasks(),
            final(self).spec_capacity() == old(self).spec_capacity(),
            // A batch of samples starts with its first sample; an empty one
            // ends the task.
            old(self).spec_phase() == TaskPhase::Fetch ==> {
                let n = e->Samples_0;
                &&& final(self).spec_fetched() == old(self).spec_fetched() + n
                &&& final(self).spec_phase() == (if n == 0 {
                    TaskPhase::Done
                } else {
                    TaskPhase::Camera
                })
                &&& n > 0 ==> final(self).spec_batch() == n && final(self).spec_cursor() == 0
            },
            // A ray of zero weight is not traced: its sample is reported as zero.
            old(self).spec_phase() == TaskPhase::Camera ==> {
                &&& final(self).spec_phase() == (if e->Weight_0 {
                    TaskPhase::Evaluate
                } else {
                    TaskPhase::ReportZero
                })
                &&& final(self).spec_cursor() == old(self).spec_cursor()
            },
            // A corrupted radiance value stops the render.
            old(self).spec_phase() == TaskPhase::Evaluate ==> {
                &&& final(self).spec_phase() == (if e->Radiance_0.spec_is_valid() {
                    TaskPhase::Report
                } else {
                    TaskPhase::Failed
                })
                &&& final(self).spec_cursor() == old(self).spec_cursor()
            },
            // After a report comes the next sample, or the next batch.
            (old(self).spec_phase() == TaskPhase::ReportZero || old(self).spec_phase()
                == TaskPhase::Report) ==> {
                &&& final(self).spec_reported() == old(self).spec_reported() + 1
                &&& if old(self).spec_cursor() + 1 < old(self).spec_batch() {
                    final(self).spec_phase() == TaskPhase::Camera && final(self).spec_cursor()
                        == old(self).spec_cursor() + 1
                } else {
                    final(self).spec_phase() == TaskPhase::Fetch
                }
            },
            old(self).spec_phase() != TaskPhase::Fetch ==> final(self).spec_fetched() == old(
                self,
            ).spec_fetched(),
            !(old(self).spec_phase() == TaskPhase::ReportZero || old(self).spec_phase()
                == TaskPhase::Report) ==> final(self).spec_reported() == old(
                self,
            ).spec_reported(),
            in_batch(old(self).spec_phase()) ==> final(self).spec_batch() == old(
                self,
            ).spec_batch(),
    {
        match e {
            TaskEvent::Samples(n) => {
                self.fetched = Ghost(self.fetched@ + n as nat);
                if n == 0 {
                    self.phase = TaskPhase::Done;
                } else {
                    self.batch = n;
                    self.cursor = 0;
                    self.phase = TaskPhase::Camera;
                }
            },
            TaskEvent::Weight(positive) => {
                self.phase = if positive {
                    TaskPhase::Evaluate
                } else {
                    TaskPhase::ReportZero
                };
            },
            TaskEvent::Radiance(l) => {
                self.phase = if l.is_valid() {
                    TaskPhase::Report
                } else {
                    TaskPhase::Failed
                };
            },
            TaskEvent::Reported => {
                self.reported = Ghost(self.reported@ + 1);
                if self.cursor + 1 < self.batch {
                    self.cursor = self.cursor + 1;
                    self.phase = TaskPhase::Camera;
                } else {
                    self.phase = TaskPhase::Fetch;
                }
            },
        }
        self.action()
    }
}

} // verus!

verus! {

/// A task that has finished reported every sample that its sub-sampler
/// handed out, each exactly once.
pub proof fn lemma_finished_task_reported_all(t: &RenderTask)
    requires
        t.wf(),
        t.spec_phase() == TaskPhase::Done,
    ensures
        t.spec_reported() == t.spec_fetched(),
{
}

} // verus!
