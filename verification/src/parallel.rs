//! The task-accumulation builder and the fork-join executor.

use vstd::prelude::*;

use crate::join::assemble;
use crate::task::{invoke, job_post, job_pre, mapped_jobs, Failure, Job, Outcome};

verus! {

/// An ordered sequence of deferred computations, all producing values of
/// one common type `T`.  Submission order is meaningful: it is the order
/// of the corresponding slots in the final result sequence.  A `Parallel`
/// is consumed exactly once, by [`Parallel::run`] or [`Parallel::finish`].
///
/// `F` is the type of the thunks handed to [`Parallel::add`]; `G` the type
/// of the mapper handed to [`Parallel::each`], applied to elements of type
/// `A`.
///
/// The terminal operations do not start workers themselves: the caller
/// hands them a `start` operation (start one job, obtain a handle of some
/// type `H`) and a `wait` operation (wait for a started job to complete,
/// obtain its [`Outcome`]).  The whole fork-join algorithm — start every
/// task in submission order, run the foreground computation, wait for
/// every worker in submission order whatever the earlier ones did, then
/// decide what to surface — is carried out here, against the contracts of
/// those two operations.
#[must_use]
pub struct Parallel<A, F, G> {
    jobs: Vec<Job<A, F, G>>,
}

impl<A, F, G> View for Parallel<A, F, G> {
    type V = Seq<Job<A, F, G>>;

    closed spec fn view(&self) -> Seq<Job<A, F, G>> {
        self.jobs@
    }
}

impl<A, F, G> Default for Parallel<A, F, G> {
    /// An empty task set.
    fn default() -> (res: Self)
        ensures
            res@ == Seq::<Job<A, F, G>>::empty(),
    {
        Parallel { jobs: Vec::new() }
    }
}

impl<T, A, F, G> Parallel<A, F, G> where F: FnOnce() -> T, G: FnOnce(A) -> T {
    /// An empty task set.
    pub fn new() -> (res: Self)
        ensures
            res@ == Seq::<Job<A, F, G>>::empty(),
    {
        Parallel { jobs: Vec::new() }
    }

    /// Append one deferred computation at the end of the set.
    pub fn add(self, f: F) -> (res: Self)
        ensures
            res@ == self@.push(Job::Direct(f)),
    {
        let mut this = self;
        this.jobs.push(Job::Direct(f));
        this
    }

    /// For every element of `items`, in order, append a deferred
    /// computation equivalent to invoking `g` with that element.  Each
    /// appended task owns an independent copy of the mapper.
    pub fn each(self, items: Vec<A>, g: G) -> (res: Self) where G: Copy
        ensures
            res@ == self@ + mapped_jobs(items@, g),
    {
        let ghost orig = self@;
        let ghost all = items@;
        let mut this = self;
        let mut items = items;
        while items.len() > 0
            invariant
                items@.len() <= all.len(),
                this.jobs@ == orig + all.subrange(0, all.len() - items@.len()).map_values(
                    |x: A| Job::<A, F, G>::Mapped(g, x),
                ),
                items@ == all.subrange(all.len() - items@.len(), all.len() as int),
            decreases items@.len(),
        {
            let x = items.remove(0);
            this.jobs.push(Job::Mapped(g, x));
            proof {
                let done: int = all.len() - items@.len();
                assert(all.subrange(0, done) == all.subrange(0, done - 1).push(all[done - 1]));
                assert(this.jobs@ =~= orig + all.subrange(0, done).map_values(
                    |x: A| Job::<A, F, G>::Mapped(g, x),
                ));
            }
        }
        proof {
            assert(all.subrange(0, all.len() as int) =~= all);
            assert(this.jobs@ =~= orig + all.map_values(|x: A| Job::<A, F, G>::Mapped(g, x)));
        }
        this
    }

    /// Remove the last-submitted task, leaving the rest in submission
    /// order; the convenience entry point [`Parallel::run`] turns that
    /// task into its foreground computation.
    pub fn split_last(self) -> (res: (Self, Option<Job<A, F, G>>))
        ensures
            match res.1 {
                Some(job) => self@.len() > 0 && job == self@.last() && res.0@ == self@.drop_last(),
                None => self@.len() == 0 && res.0@ == self@,
            },
    {
        let mut this = self;
        let last = this.jobs.pop();
        (this, last)
    }

    /// The fundamental terminal operation.  Consumes the task set: starts
    /// one worker per task in submission order (through `start`), runs
    /// `fg` on the calling thread, then waits for every worker in
    /// submission order (through `wait`) — no worker is ever left
    /// unwaited, whatever the others did.  If any worker failed, the
    /// last-joined worker failure is surfaced and the foreground outcome
    /// is discarded; otherwise a foreground failure is surfaced; otherwise
    /// the worker values are delivered in submission order, paired with
    /// the foreground value.
    ///
    /// The caller's two operations must fit together: `start` must accept
    /// any invocable job, `wait` must accept any handle `start` gave out,
    /// and a value waited out of a handle must be one the started job
    /// admits.
    pub fn finish<R, H, S, W, FG>(self, fg: FG, start: S, wait: W) -> (res: Result<
        (Vec<T>, R),
        Failure,
    >) where S: Fn(Job<A, F, G>) -> H, W: Fn(H) -> Outcome<T>, FG: FnOnce() -> Outcome<R>
        requires
            forall|i: int| 0 <= i < self@.len() ==> job_pre(#[trigger] self@[i]),
            call_requires(fg, ()),
            forall|job: Job<A, F, G>| job_pre(job) ==> call_requires(start, (job,)),
            forall|job: Job<A, F, G>, h: H|
                call_ensures(start, (job,), h) ==> call_requires(wait, (h,)),
            forall|job: Job<A, F, G>, h: H, v: T|
                call_ensures(start, (job,), h) && call_ensures(wait, (h,), Outcome::Success(v))
                    ==> job_post(job, v),
        ensures
            res matches Ok(p) ==> {
                &&& p.0@.len() == self@.len()
                &&& forall|i: int|
                    0 <= i < self@.len() ==> #[trigger] job_post(self@[i], p.0@[i])
                &&& call_ensures(fg, (), Outcome::Success(p.1))
            },
            res matches Err(e) ==> match e {
                Failure::Worker { index, message } => {
                    &&& index < self@.len()
                    &&& exists|h: H|
                        #[trigger] call_ensures(start, (self@[index as int],), h)
                            && call_ensures(wait, (h,), Outcome::<T>::Panicked(message))
                },
                Failure::Foreground { message } => call_ensures(
                    fg,
                    (),
                    Outcome::<R>::Panicked(message),
                ),
            },
    {
        let ghost jobs0 = self@;
        let Parallel { jobs } = self;
        let mut jobs = jobs;

        // Start every task, in submission order.
        let mut handles: Vec<H> = Vec::new();
        while jobs.len() > 0
            invariant
                handles@.len() + jobs@.len() == jobs0.len(),
                jobs@ == jobs0.subrange(handles@.len() as int, jobs0.len() as int),
                forall|i: int| 0 <= i < jobs0.len() ==> job_pre(#[trigger] jobs0[i]),
                forall|job: Job<A, F, G>| job_pre(job) ==> call_requires(start, (job,)),
                forall|i: int|
                    0 <= i < handles@.len() ==> call_ensures(
                        start,
                        (jobs0[i],),
                        #[trigger] handles@[i],
                    ),
            decreases jobs@.len(),
        {
            let job = jobs.remove(0);
            let h = start(job);
            handles.push(h);
        }

        // Run the foreground computation on the calling thread.
        let fg_out = fg();

        // Wait for every worker, in submission order.
        let ghost handles0 = handles@;
        let mut handles = handles;
        let mut outs: Vec<Outcome<T>> = Vec::new();
        while handles.len() > 0
            invariant
                outs@.len() + handles@.len() == jobs0.len(),
                handles0.len() == jobs0.len(),
                handles@ == handles0.subrange(outs@.len() as int, handles0.len() as int),
                forall|i: int|
                    0 <= i < jobs0.len() ==> call_ensures(start, (jobs0[i],), #[trigger] handles0[i]),
                forall|job: Job<A, F, G>, h: H|
                    call_ensures(start, (job,), h) ==> call_requires(wait, (h,)),
                forall|job: Job<A, F, G>, h: H, v: T|
                    call_ensures(start, (job,), h) && call_ensures(wait, (h,), Outcome::Success(v))
                        ==> job_post(job, v),
                forall|i: int|
                    0 <= i < outs@.len() ==> call_ensures(wait, (handles0[i],), #[trigger] outs@[i]),
            decreases handles@.len(),
        {
            let h = handles.remove(0);
            let o = wait(h);
            outs.push(o);
        }

        // Every worker has been waited on: decide what to surface.
        match assemble(outs, fg_out) {
            Ok(p) => {
                proof {
                    assert forall|i: int| 0 <= i < jobs0.len() implies #[trigger] job_post(
                        jobs0[i],
                        p.0@[i],
                    ) by {
                        assert(outs@[i] == Outcome::Success(p.0@[i]));
                        assert(call_ensures(wait, (handles0[i],), outs@[i]));
                        assert(call_ensures(start, (jobs0[i],), handles0[i]));
                    }
                }
                Ok(p)
            },
            Err(e) => {
                proof {
                    let ghost eg = e;
                    match eg {
                        Failure::Worker { index, message } => {
                            assert(outs@[index as int] == Outcome::<T>::Panicked(message));
                            assert(call_ensures(wait, (handles0[index as int],), outs@[index as int]));
                            assert(call_ensures(start, (jobs0[index as int],), handles0[index as int]));
                        },
                        Failure::Foreground { message } => {},
                    }
                }
                Err(e)
            },
        }
    }

    /// The convenience terminal operation.  An empty task set yields an
    /// empty result sequence with no worker started; otherwise the
    /// last-submitted task becomes the foreground computation and the
    /// rest run as workers, so the result sequence is the worker values
    /// in submission order with the foreground task's value appended.
    /// The foreground task runs on the calling thread; only a worker
    /// failure can be surfaced.
    pub fn run<H, S, W>(self, start: S, wait: W) -> (res: Result<Vec<T>, Failure>) where
        S: Fn(Job<A, F, G>) -> H,
        W: Fn(H) -> Outcome<T>,

        requires
            forall|i: int| 0 <= i < self@.len() ==> job_pre(#[trigger] self@[i]),
            forall|job: Job<A, F, G>| job_pre(job) ==> call_requires(start, (job,)),
            forall|job: Job<A, F, G>, h: H|
                call_ensures(start, (job,), h) ==> call_requires(wait, (h,)),
            forall|job: Job<A, F, G>, h: H, v: T|
                call_ensures(start, (job,), h) && call_ensures(wait, (h,), Outcome::Success(v))
                    ==> job_post(job, v),
        ensures
            self@.len() == 0 ==> (res matches Ok(vals) && vals@.len() == 0),
            res matches Ok(vals) ==> {
                &&& vals@.len() == self@.len()
                &&& forall|i: int|
                    0 <= i < self@.len() ==> #[trigger] job_post(self@[i], vals@[i])
            },
            res matches Err(e) ==> {
                &&& self@.len() > 0
                &&& e matches Failure::Worker { index, message } && index + 1 < self@.len()
                    && exists|h: H|
                    #[trigger] call_ensures(start, (self@[index as int],), h) && call_ensures(
                        wait,
                        (h,),
                        Outcome::<T>::Panicked(message),
                    )
            },
    {
        let ghost orig = self@;
        let (rest, popped) = self.split_last();
        let last = match popped {
            None => {
                return Ok(Vec::new());
            },
            Some(job) => job,
        };
        let ghost lastj = last;
        let fg = (move || -> (o: Outcome<T>)
            requires
                job_pre(last),
            ensures
                o matches Outcome::Success(v) && job_post(last, v),
            { Outcome::Success(invoke(last)) });
        match rest.finish(fg, start, wait) {
            Ok(p) => {
                let (vals, r) = p;
                let ghost vs = vals@;
                let mut vals = vals;
                vals.push(r);
                proof {
                    assert forall|i: int| 0 <= i < orig.len() implies #[trigger] job_post(
                        orig[i],
                        vals@[i],
                    ) by {
                        if i < orig.len() - 1 {
                            assert(rest@[i] == orig[i]);
                            assert(job_post(rest@[i], vs[i]));
                            assert(vals@[i] == vs[i]);
                        } else {
                            assert(orig[i] == lastj);
                            assert(vals@[i] == r);
                            assert(job_post(lastj, r));
                        }
                    }
                }
                Ok(vals)
            },
            Err(e) => {
                proof {
                    let ghost eg = e;
                    match eg {
                        Failure::Worker { index, message } => {
                            let h = choose|h: H|
                                call_ensures(start, (rest@[index as int],), h) && call_ensures(
                                    wait,
                                    (h,),
                                    Outcome::<T>::Panicked(message),
                                );
                            assert(rest@[index as int] == orig[index as int]);
                            assert(call_ensures(start, (orig[index as int],), h));
                        },
                        Failure::Foreground { message } => {},
                    }
                }
                Err(e)
            },
        }
    }

    /// The number of accumulated tasks: the length of the result sequence
    /// a terminal operation would deliver.
    pub fn len(&self) -> (n: usize)
        ensures
            n == self@.len(),
    {
        self.jobs.len()
    }
}

} // verus!
