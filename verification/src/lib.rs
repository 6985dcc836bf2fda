//! A fixed-size pool of workers that run fire-and-forget jobs, with admission
//! control: a job is refused once the jobs queued and the jobs being run add
//! up to the pool's capacity.
//!
//! The pool is the two ends of a [`spmc`] channel and a shared count of the
//! jobs being run. [`ThreadPool`] is the submitting side. [`Worker`] is the
//! running side, one step at a time: the caller gives each worker a thread
//! and keeps calling [`Worker::run_next`] for as long as it returns `true`.
//!
//! A job that panics unwinds through the worker that runs it; the count of
//! jobs being run is then not lowered again.

use crate::spmc::{channel, Receiver, Sender};
use crate::text::{decimal, push_decimal};
use std::sync::atomic::{AtomicUsize, Ordering};
use std::sync::Arc;
use vstd::prelude::*;

pub mod laws;
pub mod model;
pub mod spmc;
pub mod sync;
pub mod text;

verus! {

/// A submission was refused because the pool was full.
#[derive(Debug, PartialEq, Eq, Clone, Copy, Structural)]
pub struct EnqueueError {
    /// The capacity of the pool that refused the job.
    pub max_queue_depth: usize,
}

impl EnqueueError {
    /// What the refusal says to a reader: a fixed sentence with the capacity
    /// of the pool, as a decimal numeral, between its brackets.
    pub open spec fn message(self) -> Seq<char> {
        "Tried to submit more jobs than queue depth("@ + decimal(self.max_queue_depth as nat)
            + ")"@
    }

    /// The refusal as text.
    pub fn to_string(&self) -> (text: String)
        ensures
            text@ == self.message(),
    {
        let mut text = String::new();
        text.push_str("Tried to submit more jobs than queue depth(");
        push_decimal(&mut text, self.max_queue_depth);
        text.push_str(")");
        text
    }
}

/// The capacity of a pool of `pool_size` workers with `max_queue_depth` slots
/// for each: the most jobs it holds at once, queued and running together.
pub open spec fn capacity_of(pool_size: usize, max_queue_depth: usize) -> int {
    max_queue_depth * pool_size
}

/// The admission rule: with `queued` jobs waiting and `executing` jobs being
/// run, a pool of the given capacity refuses a job exactly when the two add
/// up to the capacity, and tells the capacity when it does.
pub open spec fn admission(queued: int, executing: int, capacity: usize) -> Result<
    (),
    EnqueueError,
> {
    if queued + executing != capacity {
        Ok(())
    } else {
        Err(EnqueueError { max_queue_depth: capacity })
    }
}

/// Decides on one submission from a reading of the two counts.
pub fn decide(queued: usize, executing: usize, capacity: usize) -> (verdict: Result<
    (),
    EnqueueError,
>)
    ensures
        verdict == admission(queued as int, executing as int, capacity),
{
    match queued.checked_add(executing) {
        Some(occupancy) => {
            if occupancy != capacity {
                Ok(())
            } else {
                Err(EnqueueError { max_queue_depth: capacity })
            }
        },
        None => Ok(()),
    }
}

/// What a job has to offer: it can be run once, on any thread.
trait Task: Send {
    /// Whether the work may be started.
    spec fn runnable(&self) -> bool;

    /// What holds once the work has returned.
    spec fn finished(&self) -> bool;

    fn run(self: Box<Self>)
        requires
            self.runnable(),
        ensures
            self.finished(),
    ;
}

impl<F> Task for F where F: FnOnce() -> (), F: Send + 'static {
    spec fn runnable(&self) -> bool {
        call_requires(*self, ())
    }

    spec fn finished(&self) -> bool {
        call_ensures(*self, (), ())
    }

    fn run(self: Box<Self>) {
        (*self)()
    }
}

/// A unit of work: run at most once, with no result and no identity.
pub struct Job {
    work: Box<dyn Task>,
}

impl Job {
    #[verifier::type_invariant]
    spec fn runnable(self) -> bool {
        self.work.runnable()
    }

    /// What holds once the job has been run: whatever the callable that it
    /// wraps ensures of its return.
    pub closed spec fn done(self) -> bool {
        self.work.finished()
    }

    /// Wraps a callable whose precondition holds, so that it can be run
    /// later and elsewhere without further proof. Running the job is calling
    /// `work`: what the job leaves behind is what `work` ensures.
    pub fn new<F>(work: F) -> (job: Job) where F: FnOnce() -> (), F: Send + 'static
        requires
            call_requires(work, ()),
        ensures
            job.done() <==> call_ensures(work, (), ()),
    {
        Job { work: Box::new(work) }
    }

    /// Runs the job on the calling thread.
    pub fn run(self)
        ensures
            self.done(),
    {
        proof {
            use_type_invariant(&self);
        }
        self.work.run()
    }
}

/// The submitting side of a pool.
pub struct ThreadPool {
    max_queue_depth: usize,
    job_sender: Sender<Job>,
    executing_jobs: Arc<AtomicUsize>,
}

/// The running side of a pool: takes jobs from the pool's channel and runs
/// them on the thread that calls it.
pub struct Worker {
    jobs: Receiver<Job>,
    executing_jobs: Arc<AtomicUsize>,
}

/// A job that a worker has taken from the queue. It counts as running from
/// the moment it is handed out until [`RunningJob::finish`] returns; one that
/// is dropped instead stays counted for good.
pub struct RunningJob {
    job: Job,
    executing_jobs: Arc<AtomicUsize>,
}

impl RunningJob {
    /// Whether this job was handed out by `worker`, so that it is counted
    /// among the running jobs of the pool that `worker` serves, and finishing
    /// it lowers that count.
    pub closed spec fn taken_by(&self, worker: &Worker) -> bool {
        self.executing_jobs == worker.executing_jobs
    }

    /// What holds once the job has been run, see [`Job::done`].
    pub closed spec fn done(self) -> bool {
        self.job.done()
    }

    /// Runs the job on the calling thread, then counts it as done.
    pub fn finish(self)
        ensures
            self.done(),
    {
        self.job.run();
        self.executing_jobs.fetch_sub(1, Ordering::Relaxed);
    }
}

impl Worker {
    /// Whether this worker takes its jobs from `pool` and counts them in
    /// `pool`'s count of running jobs.
    pub closed spec fn serves(&self, pool: &ThreadPool) -> bool {
        &&& self.jobs.channel() == pool.job_sender.channel()
        &&& self.executing_jobs == pool.executing_jobs
    }

    /// Waits for the next job and counts it as running. `None` means that
    /// the pool is gone and every job it accepted has been handed out.
    ///
    /// The job leaves the queue before the count is raised, so for a moment
    /// it is counted in neither.
    pub fn begin(&self) -> (next: Option<RunningJob>)
        ensures
            next matches Some(running) ==> running.taken_by(self),
    {
        match self.jobs.recv() {
            Ok(job) => {
                self.executing_jobs.fetch_add(1, Ordering::Relaxed);
                Some(RunningJob { job, executing_jobs: Arc::clone(&self.executing_jobs) })
            },
            Err(_) => None,
        }
    }

    /// One round of a worker: waits for a job, runs it, and says whether
    /// there may be more. `false` means that the worker is done for good.
    pub fn run_next(&self) -> (more: bool) {
        match self.begin() {
            Some(running) => {
                running.finish();
                true
            },
            None => false,
        }
    }
}

impl ThreadPool {
    /// The most jobs this pool holds at once, queued and running together.
    pub closed spec fn capacity(&self) -> usize {
        self.max_queue_depth
    }

    /// The capacity as a number.
    pub fn max_queue_depth(&self) -> (n: usize)
        ensures
            n == self.capacity(),
    {
        self.max_queue_depth
    }

    /// Sets up a pool and its `pool_size` workers. The workers do nothing
    /// until they are run.
    pub fn new(pool_size: usize, max_queue_depth: usize) -> (made: (ThreadPool, Vec<Worker>))
        requires
            pool_size > 0,
            capacity_of(pool_size, max_queue_depth) <= usize::MAX,
        ensures
            made.0.capacity() == capacity_of(pool_size, max_queue_depth),
            made.1.len() == pool_size,
            forall|i: int| 0 <= i < pool_size ==> (#[trigger] made.1[i]).serves(&made.0),
    {
        let executing_jobs = Arc::new(AtomicUsize::new(0));
        let (job_sender, job_receiver) = channel::<Job>();
        let pool = ThreadPool {
            max_queue_depth: max_queue_depth * pool_size,
            job_sender,
            executing_jobs,
        };
        let mut workers: Vec<Worker> = Vec::new();
        while workers.len() < pool_size
            invariant
                workers.len() <= pool_size,
                job_receiver.channel() == pool.job_sender.channel(),
                forall|i: int| 0 <= i < workers.len() ==> (#[trigger] workers[i]).serves(&pool),
            decreases pool_size - workers.len(),
        {
            let worker = Worker {
                jobs: job_receiver.clone(),
                executing_jobs: Arc::clone(&pool.executing_jobs),
            };
            workers.push(worker);
        }
        (pool, workers)
    }

    /// Submits a job. It is accepted unless the jobs queued and the jobs
    /// being run, each read on its own, add up to the capacity; an accepted
    /// job is appended to the queue, a refused one is dropped unrun.
    ///
    /// The verdict is [`decide`] of the two readings.
    pub fn execute<F>(&self, job: F) -> (verdict: Result<(), EnqueueError>) where
        F: FnOnce() -> (),
        F: Send + 'static,

        requires
            call_requires(job, ()),
        ensures
            verdict matches Err(refusal) ==> refusal.max_queue_depth == self.capacity(),
    {
        let verdict = decide(self.queued_jobs(), self.executing_jobs(), self.max_queue_depth);
        if verdict.is_ok() {
            self.job_sender.send(Job::new(job));
        }
        verdict
    }

    /// The number of jobs being run when the count was read.
    pub fn executing_jobs(&self) -> (n: usize) {
        self.executing_jobs.load(Ordering::Relaxed)
    }

    /// The number of jobs waiting in the queue when it was read.
    pub fn queued_jobs(&self) -> (n: usize) {
        self.job_sender.queued()
    }
}

} // verus!
