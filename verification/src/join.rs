//! The decision taken once every worker has been joined.

use vstd::prelude::*;

use crate::task::{Failure, Outcome};

verus! {

/// Decide what a terminal operation delivers, given what each joined
/// worker produced (in submission order) and what the foreground
/// computation produced.
///
/// Exactly one of three things happens, and the contract pins each down:
/// if any worker failed, the failure of the *last* failing worker is
/// reported and everything else — the other workers' values, the whole
/// foreground outcome — is discarded; otherwise, if the foreground failed,
/// its failure is reported; otherwise the worker values are delivered in
/// submission order together with the foreground value.
pub fn assemble<T, R>(outs: Vec<Outcome<T>>, fg: Outcome<R>) -> (res: Result<
    (Vec<T>, R),
    Failure,
>)
    ensures
        res matches Ok(p) ==> {
            &&& p.0@.len() == outs@.len()
            &&& forall|i: int| 0 <= i < outs@.len() ==> #[trigger] outs@[i] == Outcome::Success(
                p.0@[i],
            )
            &&& fg == Outcome::Success(p.1)
        },
        res matches Err(e) ==> match e {
            Failure::Worker { index, message } => {
                &&& index < outs@.len()
                &&& outs@[index as int] == Outcome::<T>::Panicked(message)
                &&& forall|j: int|
                    index < j < outs@.len() ==> (#[trigger] outs@[j]) is Success
            },
            Failure::Foreground { message } => {
                &&& forall|i: int| 0 <= i < outs@.len() ==> (#[trigger] outs@[i]) is Success
                &&& fg == Outcome::<R>::Panicked(message)
            },
        },
{
    let total: usize = outs.len();
    let ghost outs0 = outs@;
    let mut rest = outs;
    let mut vals: Vec<T> = Vec::new();
    let mut worker_failure: Option<Failure> = None;
    let mut idx: usize = 0;
    while rest.len() > 0
        invariant
            outs0.len() == total,
            idx + rest@.len() == outs0.len(),
            rest@ == outs0.subrange(idx as int, outs0.len() as int),
            match worker_failure {
                Some(f) => f matches Failure::Worker { index, message } && index < idx
                    && outs0[index as int] == Outcome::<T>::Panicked(message) && (forall|j: int|
                    index < j < idx ==> (#[trigger] outs0[j]) is Success),
                None => vals@.len() == idx && forall|j: int|
                    0 <= j < idx ==> #[trigger] outs0[j] == Outcome::Success(vals@[j]),
            },
        decreases rest@.len(),
    {
        let first = rest.remove(0);
        match first {
            Outcome::Success(v) => vals.push(v),
            Outcome::Panicked(message) => {
                worker_failure = Some(Failure::Worker { index: idx, message });
            },
        }
        idx += 1;
    }
    match worker_failure {
        Some(f) => Err(f),
        None => match fg {
            Outcome::Success(r) => Ok((vals, r)),
            Outcome::Panicked(message) => Err(Failure::Foreground { message }),
        },
    }
}

} // verus!
