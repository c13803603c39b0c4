use vstd::prelude::*;

verus! {

/// Decides where a unit of work runs. Whatever the place, `schedule` returns
/// only once `task` has run on `state`, and hands back what it returned.
pub trait Scheduler {
    fn schedule<T: Send + Sync + 'static, R: Send + Sync + 'static, F: FnOnce(Option<T>) -> R + Send + 'static>(
        &self,
        task: F,
        state: Option<T>,
    ) -> (r: R)
        requires
            call_requires(task, (state,)),
        ensures
            call_ensures(task, (state,), r),
    ;
}

/// The strategies on offer.
#[derive(Clone, Copy, Debug, PartialEq, Eq, Structural)]
pub enum Schedulers {
    /// Runs the task at once on the calling thread.
    Sync,
    /// Runs each task on a thread of its own and waits for it.
    NewThread,
    /// Runs the task on a worker of the process-wide pool and waits for it.
    ThreadPool,
}

impl Schedulers {
    /// Whether the strategy keeps the work on the calling thread, so that
    /// neither the task nor its state need to cross threads.
    pub fn runs_on_caller(&self) -> (r: bool)
        ensures
            r == (*self is Sync),
    {
        match self {
            Schedulers::Sync => true,
            _ => false,
        }
    }
}

/// The `Sync` strategy: runs `task` on `state` before returning.
pub fn sync_schedule<T, R, F: FnOnce(Option<T>) -> R>(task: F, state: Option<T>) -> (r: R)
    requires
        call_requires(task, (state,)),
    ensures
        call_ensures(task, (state,), r),
{
    task(state)
}

/// The `Sync` strategy as a scheduler of its own.
pub struct CurrentThread;

impl Scheduler for CurrentThread {
    fn schedule<T: Send + Sync + 'static, R: Send + Sync + 'static, F: FnOnce(Option<T>) -> R + Send + 'static>(
        &self,
        task: F,
        state: Option<T>,
    ) -> (r: R) {
        sync_schedule(task, state)
    }
}

/// A task whose outcome is fixed by its state gives the same result under
/// every scheduler: each hands back an outcome the task allows, and there is
/// only one.
pub proof fn lemma_same_result_on_every_scheduler<T, R, F: FnOnce(Option<T>) -> R>(
    task: F,
    state: Option<T>,
    a: R,
    b: R,
)
    requires
        forall|x: R, y: R|
            call_ensures(task, (state,), x) && call_ensures(task, (state,), y) ==> x == y,
        call_ensures(task, (state,), a),
        call_ensures(task, (state,), b),
    ensures
        a == b,
{
}

} // verus!
