//! End-to-end scenarios for the fork-join primitive, driven through an
//! in-place executor: `start` invokes the job on the calling thread and
//! hands its value back as the handle, `wait` turns the handle into an
//! outcome.  Failure scenarios use a sentinel value that `wait` reports
//! as an abnormal termination, so every decision path of the executor is
//! exercised deterministically.

use std::cell::Cell;
use std::rc::Rc;

use easy_parallel::{assemble, invoke, ready, Failure, Job, Outcome, Parallel};

fn one() -> i64 {
    1
}

fn two() -> i64 {
    2
}

fn three() -> i64 {
    3
}

fn double(x: i64) -> i64 {
    x * 2
}

fn double_of_one() -> i64 {
    double(1)
}

fn double_of_two() -> i64 {
    double(2)
}

fn double_of_three() -> i64 {
    double(3)
}

/// A fresh builder whose thunks are plain function pointers.
fn thunks() -> Parallel<i64, fn() -> i64, fn(i64) -> i64> {
    Parallel::new()
}

/// The sentinel that the failure-simulating executor reports as a panic.
const POISON: i64 = -1;

fn wait_poisonable(h: i64) -> Outcome<i64> {
    if h == POISON {
        Outcome::Panicked(String::from("boom"))
    } else {
        Outcome::Success(h)
    }
}

#[test]
fn run_three_tasks_in_submission_order() {
    let p = thunks().add(one).add(two).add(three);
    let res = p.run(invoke, ready);
    assert_eq!(res, Ok(vec![1, 2, 3]));
}

#[test]
fn run_empty_starts_no_worker() {
    let started = Rc::new(Cell::new(0usize));
    let seen = started.clone();
    let p = thunks();
    let res = p.run(
        move |job: Job<i64, fn() -> i64, fn(i64) -> i64>| {
            seen.set(seen.get() + 1);
            invoke(job)
        },
        ready,
    );
    assert_eq!(res, Ok(vec![]));
    assert_eq!(started.get(), 0);
}

#[test]
fn finish_two_tasks_and_foreground_value() {
    let p = thunks().add(one).add(two);
    let res = p.finish(|| Outcome::Success(String::from("x")), invoke, ready);
    assert_eq!(res, Ok((vec![1, 2], String::from("x"))));
}

#[test]
fn finish_round_trips_with_sequential_execution() {
    let items: Vec<i64> = vec![1, 2, 3, 4, 5];
    let mapper = |x: i64| x * x + 1;
    let p: Parallel<i64, fn() -> i64, _> = Parallel::new();
    let p = p.each(items.clone(), mapper);
    let res = p.finish(|| Outcome::Success(0i64), invoke, ready);
    let sequential: Vec<i64> = items.into_iter().map(mapper).collect();
    assert_eq!(res, Ok((sequential, 0)));
}

#[test]
fn each_matches_three_sequential_adds() {
    let batched = thunks().each(vec![1, 2, 3], double).run(invoke, ready);
    let added = thunks()
        .add(double_of_one)
        .add(double_of_two)
        .add(double_of_three)
        .run(invoke, ready);
    assert_eq!(batched, added);
    assert_eq!(batched, Ok(vec![2, 4, 6]));
}

#[test]
fn add_and_each_interleave_in_submission_order() {
    let p = thunks().add(one).each(vec![10, 20], double).add(three);
    let res = p.run(invoke, ready);
    assert_eq!(res, Ok(vec![1, 20, 40, 3]));
}

#[test]
fn each_of_empty_sequence_appends_nothing() {
    let p = thunks().add(two).each(vec![], double);
    let res = p.run(invoke, ready);
    assert_eq!(res, Ok(vec![2]));
}

#[test]
fn split_last_removes_the_last_submitted_task() {
    let p = thunks().add(one).add(two);
    let (rest, last) = p.split_last();
    assert_eq!(invoke(last.expect("a task was submitted")), 2);
    let res = rest.run(invoke, ready);
    assert_eq!(res, Ok(vec![1]));
}

#[test]
fn worker_failure_propagates_after_every_task_completed() {
    let counter = Rc::new(Cell::new(0usize));
    let items: Vec<(Rc<Cell<usize>>, i64)> =
        vec![(counter.clone(), 5), (counter.clone(), POISON), (counter.clone(), 7)];
    let p: Parallel<(Rc<Cell<usize>>, i64), fn() -> i64, _> = Parallel::new();
    let p = p.each(items, |pair: (Rc<Cell<usize>>, i64)| {
        pair.0.set(pair.0.get() + 1);
        pair.1
    });
    // Workers are the first two tasks; the third runs as the foreground.
    let res = p.run(invoke, wait_poisonable);
    assert_eq!(
        res,
        Err(Failure::Worker { index: 1, message: String::from("boom") })
    );
    assert_eq!(counter.get(), 3, "every task ran to completion before propagation");
}

#[test]
fn worker_failure_supersedes_foreground_failure() {
    let counter = Rc::new(Cell::new(0usize));
    let items: Vec<(Rc<Cell<usize>>, i64)> = vec![(counter.clone(), 5), (counter.clone(), POISON)];
    let p: Parallel<(Rc<Cell<usize>>, i64), fn() -> i64, _> = Parallel::new();
    let p = p.each(items, |pair: (Rc<Cell<usize>>, i64)| {
        pair.0.set(pair.0.get() + 1);
        pair.1
    });
    let res = p.finish(
        || Outcome::<i64>::Panicked(String::from("foreground went down")),
        invoke,
        wait_poisonable,
    );
    assert_eq!(
        res,
        Err(Failure::Worker { index: 1, message: String::from("boom") })
    );
    assert_eq!(counter.get(), 2, "both workers were joined");
}

#[test]
fn foreground_failure_surfaces_when_all_workers_deliver() {
    let p = thunks().add(one).add(two);
    let res = p.finish(|| Outcome::<i64>::Panicked(String::from("fg")), invoke, wait_poisonable);
    assert_eq!(res, Err(Failure::Foreground { message: String::from("fg") }));
}

#[test]
fn last_joined_worker_failure_wins() {
    let items: Vec<i64> = vec![POISON, 2, POISON, 4];
    let p: Parallel<i64, fn() -> i64, fn(i64) -> i64> = Parallel::new();
    let p = p.each(items, std::convert::identity);
    let res = p.finish(|| Outcome::Success(0i64), invoke, wait_poisonable);
    assert_eq!(
        res,
        Err(Failure::Worker { index: 2, message: String::from("boom") })
    );
}

#[test]
fn len_counts_accumulated_tasks() {
    let p = thunks();
    assert_eq!(p.len(), 0);
    let p = p.add(one).each(vec![1, 2, 3], double);
    assert_eq!(p.len(), 4);
}

#[test]
fn default_is_an_empty_task_set() {
    let p: Parallel<i64, fn() -> i64, fn(i64) -> i64> = Parallel::default();
    assert_eq!(p.len(), 0);
    assert_eq!(p.run(invoke, ready), Ok(vec![]));
}

#[test]
fn assemble_delivers_values_and_foreground_in_order() {
    let outs = vec![Outcome::Success(1), Outcome::Success(2)];
    let res = assemble(outs, Outcome::Success(9));
    assert_eq!(res, Ok((vec![1, 2], 9)));
}

#[test]
fn assemble_reports_last_failing_worker() {
    let outs = vec![
        Outcome::Panicked(String::from("a")),
        Outcome::Success(2),
        Outcome::Panicked(String::from("b")),
        Outcome::Success(4),
    ];
    let res = assemble(outs, Outcome::Success(9));
    assert_eq!(res, Err(Failure::Worker { index: 2, message: String::from("b") }));
}

#[test]
fn assemble_reports_foreground_failure_only_without_worker_failure() {
    let outs = vec![Outcome::Success(1)];
    let res = assemble(outs, Outcome::<i64>::Panicked(String::from("z")));
    assert_eq!(res, Err(Failure::Foreground { message: String::from("z") }));
}

#[test]
fn assemble_of_nothing_is_the_foreground_outcome() {
    let outs: Vec<Outcome<i64>> = vec![];
    let res = assemble(outs, Outcome::Success(String::from("only")));
    assert_eq!(res, Ok((vec![], String::from("only"))));
}
