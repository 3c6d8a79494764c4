use vstd::prelude::*;

verus! {

/// A value that is exactly one of two alternatives: `Left` holding an `L`, or
/// `Right` holding an `R`. Neither side is privileged; when the two sides are
/// compared, every `Left` orders before every `Right`.
#[derive(Copy, Clone, PartialEq, Eq, PartialOrd, Ord, Hash, Debug)]
pub enum Either<L, R> {
    /// A value of type `L`.
    Left(L),
    /// A value of type `R`.
    Right(R),
}

impl<L, R> Either<L, R> {
    /// The same value with its sides swapped.
    pub open spec fn flipped(self) -> Either<R, L> {
        match self {
            Either::Left(l) => Either::Right(l),
            Either::Right(r) => Either::Left(r),
        }
    }

    /// The payload of the left side, if that is the active side.
    pub open spec fn left_value(self) -> Option<L> {
        match self {
            Either::Left(l) => Option::Some(l),
            Either::Right(_) => Option::None,
        }
    }

    /// The payload of the right side, if that is the active side.
    pub open spec fn right_value(self) -> Option<R> {
        match self {
            Either::Left(_) => Option::None,
            Either::Right(r) => Option::Some(r),
        }
    }

    /// `out` is a possible result of mapping the left side of this value by `f`.
    pub open spec fn left_mapped_to<F, M>(self, f: F, out: Either<M, R>) -> bool
        where
            F: FnOnce(L) -> M,
    {
        match self {
            Either::Left(l) => out is Left && f.ensures((l,), out->Left_0),
            Either::Right(x) => out == Either::<M, R>::Right(x),
        }
    }

    /// `out` is a possible result of mapping the right side of this value by `f`.
    pub open spec fn right_mapped_to<F, S>(self, f: F, out: Either<L, S>) -> bool
        where
            F: FnOnce(R) -> S,
    {
        match self {
            Either::Left(x) => out == Either::<L, S>::Left(x),
            Either::Right(r) => out is Right && f.ensures((r,), out->Right_0),
        }
    }

    /// `out` is a possible result of eliminating this value by `f` or `g`.
    pub open spec fn eliminated_to<F, G, T>(self, f: F, g: G, out: T) -> bool
        where
            F: FnOnce(L) -> T,
            G: FnOnce(R) -> T,
    {
        match self {
            Either::Left(l) => f.ensures((l,), out),
            Either::Right(r) => g.ensures((r,), out),
        }
    }

    /// `out` is a possible result of eliminating this value by `f` or `g`,
    /// with `ctx` handed to the one that is called.
    pub open spec fn eliminated_with_to<Ctx, F, G, T>(self, ctx: Ctx, f: F, g: G, out: T) -> bool
        where
            F: FnOnce(Ctx, L) -> T,
            G: FnOnce(Ctx, R) -> T,
    {
        match self {
            Either::Left(l) => f.ensures((ctx, l), out),
            Either::Right(r) => g.ensures((ctx, r), out),
        }
    }

    /// Returns true if the value is the `Left` variant.
    pub fn is_left(&self) -> (r: bool)
        ensures
            r == self is Left,
    {
        match *self {
            Either::Left(_) => true,
            Either::Right(_) => false,
        }
    }

    /// Returns true if the value is the `Right` variant.
    pub fn is_right(&self) -> (r: bool)
        ensures
            r == self is Right,
    {
        !self.is_left()
    }

    /// The left payload as an `Option`: `Some` exactly when the value is `Left`.
    pub fn left(self) -> (r: Option<L>)
        ensures
            r == self.left_value(),
    {
        match self {
            Either::Left(l) => Some(l),
            Either::Right(_) => None,
        }
    }

    /// The right payload as an `Option`: `Some` exactly when the value is `Right`.
    pub fn right(self) -> (r: Option<R>)
        ensures
            r == self.right_value(),
    {
        match self {
            Either::Left(_) => None,
            Either::Right(r) => Some(r),
        }
    }

    /// Borrows the payload in place: the result is on the same side and
    /// refers to the payload held here.
    pub fn as_ref(&self) -> (r: Either<&L, &R>)
        ensures
            r is Left <==> self is Left,
            self is Left ==> *(r->Left_0) == self->Left_0,
            self is Right ==> *(r->Right_0) == self->Right_0,
    {
        match *self {
            Either::Left(ref inner) => Either::Left(inner),
            Either::Right(ref inner) => Either::Right(inner),
        }
    }

    /// Borrows the payload mutably in place: the result is on the same side,
    /// and whatever is written through it is what this value holds afterwards.
    pub fn as_mut(&mut self) -> (r: Either<&mut L, &mut R>)
        ensures
            r is Left <==> (*old(self)) is Left,
            (*old(self)) is Left ==> *(r->Left_0) == (*old(self))->Left_0
                && *final(self) == Either::<L, R>::Left(*final(r->Left_0)),
            (*old(self)) is Right ==> *(r->Right_0) == (*old(self))->Right_0
                && *final(self) == Either::<L, R>::Right(*final(r->Right_0)),
    {
        match *self {
            Either::Left(ref mut inner) => Either::Left(inner),
            Either::Right(ref mut inner) => Either::Right(inner),
        }
    }

    /// Swaps the sides: `Left(x)` becomes `Right(x)` and `Right(x)` becomes `Left(x)`.
    pub fn flip(self) -> (r: Either<R, L>)
        ensures
            r == self.flipped(),
    {
        match self {
            Either::Left(l) => Either::Right(l),
            Either::Right(r) => Either::Left(r),
        }
    }

    /// Applies `f` to the payload if the value is `Left`, rewrapping the result
    /// in `Left`; a `Right` passes through unchanged and `f` is not called.
    pub fn map_left<F, M>(self, f: F) -> (r: Either<M, R>)
        where
            F: FnOnce(L) -> M,
        requires
            self is Left ==> f.requires((self->Left_0,)),
        ensures
            self.left_mapped_to(f, r),
    {
        match self {
            Either::Left(l) => Either::Left(f(l)),
            Either::Right(r) => Either::Right(r),
        }
    }

    /// Applies `f` to the payload if the value is `Right`, rewrapping the
    /// result in `Right`; a `Left` passes through unchanged and `f` is not called.
    pub fn map_right<F, S>(self, f: F) -> (r: Either<L, S>)
        where
            F: FnOnce(R) -> S,
        requires
            self is Right ==> f.requires((self->Right_0,)),
        ensures
            self.right_mapped_to(f, r),
    {
        match self {
            Either::Left(l) => Either::Left(l),
            Either::Right(r) => Either::Right(f(r)),
        }
    }

    /// Eliminates the value: calls `f` on a `Left` payload or `g` on a `Right`
    /// payload, exactly one of them, and returns what it returned.
    pub fn either<F, G, T>(self, f: F, g: G) -> (r: T)
        where
            F: FnOnce(L) -> T,
            G: FnOnce(R) -> T,
        requires
            self is Left ==> f.requires((self->Left_0,)),
            self is Right ==> g.requires((self->Right_0,)),
        ensures
            self.eliminated_to(f, g, r),
    {
        match self {
            Either::Left(l) => f(l),
            Either::Right(r) => g(r),
        }
    }

    /// Like `either`, but hands `ctx`, untouched, as the first argument to
    /// whichever of `f` and `g` is called.
    pub fn either_with<Ctx, F, G, T>(self, ctx: Ctx, f: F, g: G) -> (r: T)
        where
            F: FnOnce(Ctx, L) -> T,
            G: FnOnce(Ctx, R) -> T,
        requires
            self is Left ==> f.requires((ctx, self->Left_0)),
            self is Right ==> g.requires((ctx, self->Right_0)),
        ensures
            self.eliminated_with_to(ctx, f, g, r),
    {
        match self {
            Either::Left(l) => f(ctx, l),
            Either::Right(r) => g(ctx, r),
        }
    }

    /// Chains on the left side: a `Left` payload is handed to `f`, whose
    /// result is returned; a `Right` passes through unchanged.
    pub fn left_and_then<F, S>(self, f: F) -> (r: Either<S, R>)
        where
            F: FnOnce(L) -> Either<S, R>,
        requires
            self is Left ==> f.requires((self->Left_0,)),
        ensures
            self is Left ==> f.ensures((self->Left_0,), r),
            self is Right ==> r == Either::<S, R>::Right(self->Right_0),
    {
        match self {
            Either::Left(l) => f(l),
            Either::Right(r) => Either::Right(r),
        }
    }

    /// Chains on the right side: a `Right` payload is handed to `f`, whose
    /// result is returned; a `Left` passes through unchanged.
    pub fn right_and_then<F, S>(self, f: F) -> (r: Either<L, S>)
        where
            F: FnOnce(R) -> Either<L, S>,
        requires
            self is Right ==> f.requires((self->Right_0,)),
        ensures
            self is Right ==> f.ensures((self->Right_0,), r),
            self is Left ==> r == Either::<L, S>::Left(self->Left_0),
    {
        match self {
            Either::Left(l) => Either::Left(l),
            Either::Right(r) => f(r),
        }
    }
}

impl<T, L, R> Either<(T, L), (T, R)> {
    /// The shared first field, with the remaining field on the same side.
    pub open spec fn factored_first(self) -> (T, Either<L, R>) {
        match self {
            Either::Left((t, l)) => (t, Either::Left(l)),
            Either::Right((t, r)) => (t, Either::Right(r)),
        }
    }

    /// Factors out the first field, which both sides share: returns it with
    /// the remaining field on the side that held it.
    pub fn factor_first(self) -> (r: (T, Either<L, R>))
        ensures
            r == self.factored_first(),
    {
        match self {
            Either::Left((t, l)) => (t, Either::Left(l)),
            Either::Right((t, r)) => (t, Either::Right(r)),
        }
    }
}

impl<T, L, R> Either<(L, T), (R, T)> {
    /// The remaining first field on the same side, with the shared second field.
    pub open spec fn factored_second(self) -> (Either<L, R>, T) {
        match self {
            Either::Left((l, t)) => (Either::Left(l), t),
            Either::Right((r, t)) => (Either::Right(r), t),
        }
    }

    /// Factors out the second field, which both sides share: returns it with
    /// the remaining field on the side that held it.
    pub fn factor_second(self) -> (r: (Either<L, R>, T))
        ensures
            r == self.factored_second(),
    {
        match self {
            Either::Left((l, t)) => (Either::Left(l), t),
            Either::Right((r, t)) => (Either::Right(r), t),
        }
    }
}

impl<T> Either<T, T> {
    /// The payload of a value whose two sides have the same type, whichever
    /// side holds it.
    pub open spec fn inner(self) -> T {
        match self {
            Either::Left(x) => x,
            Either::Right(x) => x,
        }
    }

    /// Returns the payload, whichever side holds it.
    pub fn into_inner(self) -> (r: T)
        ensures
            r == self.inner(),
    {
        match self {
            Either::Left(inner) => inner,
            Either::Right(inner) => inner,
        }
    }
}

} // verus!
