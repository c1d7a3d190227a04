//! The data model: deferred computations and what they may produce.

use vstd::prelude::*;

verus! {

/// One deferred computation, owned by whichever execution context will run
/// it.  Either a ready-made thunk, or a mapper paired with the one element
/// it will be applied to (the form in which a batch append stores its
/// tasks).
pub enum Job<A, F, G> {
    /// A zero-argument computation, invoked as `f()`.
    Direct(F),
    /// A mapper and its argument, invoked as `g(x)`.
    Mapped(G, A),
}

/// The condition under which a job may be invoked: the precondition of the
/// computation it holds.
pub open spec fn job_pre<T, A, F, G>(job: Job<A, F, G>) -> bool where
    F: FnOnce() -> T,
    G: FnOnce(A) -> T,
{
    match job {
        Job::Direct(f) => call_requires(f, ()),
        Job::Mapped(g, x) => call_requires(g, (x,)),
    }
}

/// The values a job admits: `v` is a possible result of invoking the
/// computation the job holds.
pub open spec fn job_post<T, A, F, G>(job: Job<A, F, G>, v: T) -> bool where
    F: FnOnce() -> T,
    G: FnOnce(A) -> T,
{
    match job {
        Job::Direct(f) => call_ensures(f, (), v),
        Job::Mapped(g, x) => call_ensures(g, (x,), v),
    }
}

/// The jobs one batch append creates: one mapped task per element, in the
/// order the elements come.
pub open spec fn mapped_jobs<A, F, G>(items: Seq<A>, g: G) -> Seq<Job<A, F, G>> {
    items.map_values(|x: A| Job::<A, F, G>::Mapped(g, x))
}

/// Invoke a job on the current thread, consuming it.
pub fn invoke<T, A, F, G>(job: Job<A, F, G>) -> (v: T) where
    F: FnOnce() -> T,
    G: FnOnce(A) -> T,

    requires
        job_pre(job),
    ensures
        job_post(job, v),
{
    match job {
        Job::Direct(f) => f(),
        Job::Mapped(g, x) => g(x),
    }
}

/// The wait operation of the in-place executor: a job started by
/// [`invoke`] has already completed, so its handle is its value.
/// `run(invoke, ready)` therefore runs every task on the calling thread.
pub fn ready<R>(v: R) -> (o: Outcome<R>)
    ensures
        o == Outcome::Success(v),
{
    Outcome::Success(v)
}

/// What one computation produced: a value, or a captured abnormal
/// termination carrying the failure's message.  Failure travels as a
/// value, never as an unwind, so the join loop can always visit every
/// worker before deciding what to surface.
#[derive(Debug, PartialEq, Eq)]
pub enum Outcome<R> {
    /// The computation returned this value.
    Success(R),
    /// The computation terminated abnormally with this message.
    Panicked(String),
}

/// Why a terminal operation delivered no values.
#[derive(Debug, PartialEq, Eq)]
pub enum Failure {
    /// The worker at this submission index did not deliver a value.  When
    /// several workers fail, the one joined last — the highest index — is
    /// the one reported; earlier worker failures and the whole foreground
    /// outcome are superseded.
    Worker { index: usize, message: String },
    /// Every worker delivered, but the foreground computation terminated
    /// abnormally with this message.
    Foreground { message: String },
}

} // verus!
