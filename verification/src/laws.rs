//! General properties of the library, stated and proved once and for all.

use vstd::prelude::*;

use crate::task::{job_post, job_pre, mapped_jobs, Job};

verus! {

/// A task created from a mapper and one element behaves exactly as
/// invoking the mapper on that element: the same condition to run, the
/// same admitted values.  Together with
/// [`lemma_each_is_sequential_adds`], appending a batch is equivalent to
/// appending, in order, one task per element that invokes the mapper on
/// it.
pub proof fn lemma_mapped_job_semantics<T, A, F, G>(g: G, x: A) where
    F: FnOnce() -> T,
    G: FnOnce(A) -> T,

    ensures
        job_pre::<T, A, F, G>(Job::Mapped(g, x)) == call_requires(g, (x,)),
        forall|v: T|
            job_post::<T, A, F, G>(Job::Mapped(g, x), v) == call_ensures(g, (x,), v),
{
}

/// Appending a batch of elements is the same as appending one mapped task
/// per element sequentially, one `push` at a time, in the order the
/// elements come: what [`crate::Parallel::each`] leaves behind is exactly
/// what the corresponding chain of single appends would leave behind.
pub proof fn lemma_each_is_sequential_adds<A, F, G>(base: Seq<Job<A, F, G>>, items: Seq<A>, g: G)
    ensures
        base + mapped_jobs(items, g) == items.fold_left(
            base,
            |s: Seq<Job<A, F, G>>, x: A| s.push(Job::Mapped(g, x)),
        ),
    decreases items.len(),
{
    let step = |s: Seq<Job<A, F, G>>, x: A| s.push(Job::<A, F, G>::Mapped(g, x));
    if items.len() == 0 {
        assert(base + mapped_jobs(items, g) =~= base);
    } else {
        lemma_each_is_sequential_adds(base, items.drop_last(), g);
        assert(items.fold_left(base, step) == step(
            items.drop_last().fold_left(base, step),
            items.last(),
        ));
        assert(base + mapped_jobs(items, g) =~= (base + mapped_jobs(items.drop_last(), g)).push(
            Job::Mapped(g, items.last()),
        ));
    }
}

/// Tasks whose contract pins their result down behave like a sequential
/// execution: when every task admits a single value, a successful
/// terminal operation delivers exactly those values, in submission order,
/// whatever order the workers actually completed in.
pub proof fn lemma_deterministic_values<T, A, F, G>(
    jobs: Seq<Job<A, F, G>>,
    expected: Seq<T>,
    vals: Seq<T>,
) where F: FnOnce() -> T, G: FnOnce(A) -> T
    requires
        expected.len() == jobs.len(),
        vals.len() == jobs.len(),
        forall|i: int, v: T|
            0 <= i < jobs.len() && #[trigger] job_post(jobs[i], v) ==> v == expected[i],
        forall|i: int| 0 <= i < jobs.len() ==> job_post(jobs[i], #[trigger] vals[i]),
    ensures
        vals == expected,
{
    assert(vals =~= expected);
}

} // verus!
