use vstd::prelude::*;

use crate::convert::{either_of_result, result_of_either};
use crate::either::Either;

verus! {

/// Flipping twice gives back the original value.
pub proof fn lemma_flip_involution<L, R>(e: Either<L, R>)
    ensures
        e.flipped().flipped() == e,
{
}

/// Exactly one of the left and right extractions holds a payload, and the
/// value is `Left` exactly when the left extraction does.
pub proof fn lemma_sides_exclusive<L, R>(e: Either<L, R>)
    ensures
        e.left_value() is Some != e.right_value() is Some,
        (e is Left) == (e.left_value() is Some),
        (e is Right) == (e.right_value() is Some),
{
}

/// Mapping the left side leaves a `Right` as it is, whatever the function;
/// mapping the right side leaves a `Left` as it is.
pub proof fn lemma_map_keeps_other_side<L, R, M, S, F, G>(l: L, r: R, f: F, g: G)
    where
        F: FnOnce(L) -> M,
        G: FnOnce(R) -> S,
    ensures
        forall|out: Either<M, R>|
            Either::<L, R>::Right(r).left_mapped_to(f, out) <==> out == Either::<M, R>::Right(r),
        forall|out: Either<L, S>|
            Either::<L, R>::Left(l).right_mapped_to(g, out) <==> out == Either::<L, S>::Left(l),
{
}

/// Eliminating a `Left(l)` gives what `f(l)` gives and eliminating a
/// `Right(r)` what `g(r)` gives; with a context, the one function called
/// receives the context untouched.
pub proof fn lemma_eliminate_picks_side<L, R, T, Ctx, F, G, FC, GC>(
    l: L,
    r: R,
    ctx: Ctx,
    f: F,
    g: G,
    fc: FC,
    gc: GC,
)
    where
        F: FnOnce(L) -> T,
        G: FnOnce(R) -> T,
        FC: FnOnce(Ctx, L) -> T,
        GC: FnOnce(Ctx, R) -> T,
    ensures
        forall|out: T| Either::<L, R>::Left(l).eliminated_to(f, g, out) <==> f.ensures((l,), out),
        forall|out: T| Either::<L, R>::Right(r).eliminated_to(f, g, out) <==> g.ensures((r,), out),
        forall|out: T|
            Either::<L, R>::Left(l).eliminated_with_to(ctx, fc, gc, out) <==> fc.ensures(
                (ctx, l),
                out,
            ),
        forall|out: T|
            Either::<L, R>::Right(r).eliminated_with_to(ctx, fc, gc, out) <==> gc.ensures(
                (ctx, r),
                out,
            ),
{
}

/// An outcome converted to an `Either` and back is the same outcome, and an
/// `Either` converted to an outcome and back is the same `Either`: failure
/// always pairs with `Left` and success with `Right`.
pub proof fn lemma_result_round_trip<L, R>(res: Result<R, L>, e: Either<L, R>)
    ensures
        result_of_either(either_of_result(res)) == res,
        either_of_result(result_of_either(e)) == e,
        res is Err <==> either_of_result(res) is Left,
        res is Ok <==> either_of_result(res) is Right,
{
}

/// Factoring out the shared field returns exactly that field and keeps the
/// remaining field on the side of the input.
pub proof fn lemma_factor_exact<T, L, R>(a: Either<(T, L), (T, R)>, b: Either<(L, T), (R, T)>)
    ensures
        a is Left ==> a.factored_first() == (a->Left_0.0, Either::<L, R>::Left(a->Left_0.1)),
        a is Right ==> a.factored_first() == (a->Right_0.0, Either::<L, R>::Right(a->Right_0.1)),
        b is Left ==> b.factored_second() == (Either::<L, R>::Left(b->Left_0.0), b->Left_0.1),
        b is Right ==> b.factored_second() == (Either::<L, R>::Right(b->Right_0.0), b->Right_0.1),
{
}

/// When both sides have one type, the payload comes out whichever side held it.
pub proof fn lemma_inner_either_side<T>(x: T)
    ensures
        Either::<T, T>::Left(x).inner() == x,
        Either::<T, T>::Right(x).inner() == x,
{
}

} // verus!
