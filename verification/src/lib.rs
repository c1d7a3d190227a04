//! A fork-join execution primitive.
//!
//! A [`Parallel`] value accumulates deferred computations ("tasks") in
//! submission order.  A terminal operation consumes it: every task but one
//! runs on its own worker thread, one computation runs on the calling
//! thread, every worker is joined before anything is decided, and the
//! results come back as one ordered sequence — index `i` of the sequence
//! belongs to the `i`-th submitted task, whatever order the tasks actually
//! finished in.
//!
//! Abnormal termination is modelled as a value, never as an unwind: a worker
//! that fails to deliver shows up as [`Failure::Worker`], and the foreground
//! computation reports through the [`Outcome`] sum type, so the join loop's
//! policy — join everything first, then surface the most recently joined
//! worker failure, else the foreground failure, else the values — is
//! ordinary verified code with an exact contract (see [`assemble`]).
//!
//! The terminal operations are parametric in how a worker is started and
//! waited for: `run(invoke, ready)` executes every task in place on the
//! calling thread, while a thread-per-task executor supplies its own
//! `start` and `wait` operations and gets the same ordering and failure
//! guarantees from the same verified algorithm.

pub mod join;
pub mod laws;
pub mod parallel;
pub mod task;

pub use join::assemble;
pub use laws::{lemma_deterministic_values, lemma_each_is_sequential_adds, lemma_mapped_job_semantics};
pub use parallel::Parallel;
pub use task::{invoke, job_post, job_pre, mapped_jobs, ready, Failure, Job, Outcome};
