use vstd::prelude::*;

use crate::either::Either;
use std::ops::ControlFlow;

verus! {

/// The `Either` that stands for an outcome: a failure goes to `Left`, a
/// success to `Right`.
pub open spec fn either_of_result<L, R>(res: Result<R, L>) -> Either<L, R> {
    match res {
        Err(e) => Either::Left(e),
        Ok(o) => Either::Right(o),
    }
}

/// The outcome that an `Either` stands for: `Left` is a failure, `Right` a
/// success.
pub open spec fn result_of_either<L, R>(e: Either<L, R>) -> Result<R, L> {
    match e {
        Either::Left(l) => Err(l),
        Either::Right(r) => Ok(r),
    }
}

/// Converts an outcome into an `Either`: `Err` becomes `Left`, `Ok` becomes `Right`.
impl<L, R> From<Result<R, L>> for Either<L, R> {
    fn from(res: Result<R, L>) -> (r: Self) {
        match res {
            Err(e) => Either::Left(e),
            Ok(o) => Either::Right(o),
        }
    }
}

impl<L, R> vstd::std_specs::convert::FromSpecImpl<Result<R, L>> for Either<L, R> {
    open spec fn obeys_from_spec() -> bool {
        true
    }

    open spec fn from_spec(v: Result<R, L>) -> Self {
        either_of_result(v)
    }
}

/// Converts an `Either` into an outcome: `Left` becomes `Err`, `Right` becomes `Ok`.
impl<L, R> From<Either<L, R>> for Result<R, L> {
    fn from(e: Either<L, R>) -> (r: Self) {
        match e {
            Either::Left(l) => Err(l),
            Either::Right(r) => Ok(r),
        }
    }
}

impl<L, R> vstd::std_specs::convert::FromSpecImpl<Either<L, R>> for Result<R, L> {
    open spec fn obeys_from_spec() -> bool {
        true
    }

    open spec fn from_spec(v: Either<L, R>) -> Self {
        result_of_either(v)
    }
}

impl<L, R> Either<L, R> {
    /// Reads the value as an outcome for early return: `Right` is the value
    /// that continues, `Left` the one that short-circuits.
    pub fn into_result(self) -> (r: Result<R, L>)
        ensures
            r == result_of_either(self),
    {
        match self {
            Either::Left(l) => Err(l),
            Either::Right(r) => Ok(r),
        }
    }

    /// Rebuilds a short-circuiting value: it goes to `Left`.
    pub fn from_error(v: L) -> (r: Self)
        ensures
            r == Either::<L, R>::Left(v),
    {
        Either::Left(v)
    }

    /// Rebuilds a continuing value: it goes to `Right`.
    pub fn from_ok(v: R) -> (r: Self)
        ensures
            r == Either::<L, R>::Right(v),
    {
        Either::Right(v)
    }
}

/// Early return on the right side. A `Left` payload is the value to go on
/// with (`Continue`). A `Right` payload ends the enclosing computation: it
/// comes back as `Break` of a new `Right`, converted by `From`.
///
/// A caller writes `let x = match try_left(e) { Continue(x) => x, Break(out) => return out };`.
pub fn try_left<L, R, M, S>(e: Either<L, R>) -> (r: ControlFlow<Either<M, S>, L>)
    where
        S: From<R>,
    ensures
        e is Left ==> r == ControlFlow::<Either<M, S>, L>::Continue(e->Left_0),
        e is Right ==> match r {
            ControlFlow::Break(Either::Right(s)) => call_ensures(S::from, (e->Right_0,), s),
            _ => false,
        },
{
    match e {
        Either::Left(val) => ControlFlow::Continue(val),
        Either::Right(err) => ControlFlow::Break(Either::Right(S::from(err))),
    }
}

/// Early return on the left side, the mirror of `try_left`. A `Right`
/// payload is the value to go on with; a `Left` payload comes back as `Break`
/// of a new `Left`, converted by `From`.
pub fn try_right<L, R, M, S>(e: Either<L, R>) -> (r: ControlFlow<Either<M, S>, R>)
    where
        M: From<L>,
    ensures
        e is Right ==> r == ControlFlow::<Either<M, S>, R>::Continue(e->Right_0),
        e is Left ==> match r {
            ControlFlow::Break(Either::Left(m)) => call_ensures(M::from, (e->Left_0,), m),
            _ => false,
        },
{
    match e {
        Either::Left(err) => ControlFlow::Break(Either::Left(M::from(err))),
        Either::Right(val) => ControlFlow::Continue(val),
    }
}

} // verus!
