use vstd::prelude::*;

use crate::either::Either;
use vstd::std_specs::iter::IteratorSpec;

verus! {

/// Counts what `iter` still produces by stepping it to its end.
fn count_rest<I: Iterator>(iter: I) -> (n: usize)
    requires
        iter.obeys_prophetic_iter_laws(),
        iter.decrease() is Some,
        iter.remaining().len() <= usize::MAX,
    ensures
        n == iter.remaining().len(),
{
    let mut it = iter;
    let mut n: usize = 0;
    loop
        invariant
            it.obeys_prophetic_iter_laws(),
            it.decrease() is Some,
            n + it.remaining().len() == iter.remaining().len(),
            iter.remaining().len() <= usize::MAX,
        decreases it.decrease()->0,
    {
        match it.next() {
            Some(_) => {
                n = n + 1;
            },
            None => {
                return n;
            },
        }
    }
}

/// Gathers, in order, what `iter` still produces.
fn collect_rest<I: Iterator>(iter: I) -> (v: Vec<I::Item>)
    requires
        iter.obeys_prophetic_iter_laws(),
        iter.decrease() is Some,
    ensures
        v@ == iter.remaining(),
{
    let mut it = iter;
    let mut v: Vec<I::Item> = Vec::new();
    loop
        invariant
            it.obeys_prophetic_iter_laws(),
            it.decrease() is Some,
            v@ + it.remaining() == iter.remaining(),
        decreases it.decrease()->0,
    {
        let ghost before = it.remaining();
        match it.next() {
            Some(x) => {
                proof {
                    assert(v@.push(x) + it.remaining() =~= v@ + before);
                }
                v.push(x);
            },
            None => {
                return v;
            },
        }
    }
}

/// Steps `it` while `f` holds of each item, stopping at the first item of
/// which it does not; returns whether it held of all of them.
fn all_rest<I: Iterator, F: FnMut(I::Item) -> bool>(it: &mut I, pred: F) -> (r: bool)
    requires
        (*old(it)).obeys_prophetic_iter_laws(),
        (*old(it)).decrease() is Some,
        forall|x: I::Item| pred.requires((x,)),
    ensures
        r ==> (*final(it)).remaining().len() == 0,
        r ==> forall|i: int|
            0 <= i < (*old(it)).remaining().len() ==> pred.ensures(
                ((*old(it)).remaining()[i],),
                true,
            ),
        !r ==> exists|i: int|
            {
                &&& 0 <= i < (*old(it)).remaining().len()
                &&& forall|j: int|
                    0 <= j < i ==> pred.ensures(((*old(it)).remaining()[j],), true)
                &&& pred.ensures(((*old(it)).remaining()[i],), false)
                &&& (*final(it)).remaining() == (*old(it)).remaining().skip(i + 1)
            },
{
    let mut f = pred;
    let ghost k: int = 0;
    loop
        invariant
            (*it).obeys_prophetic_iter_laws(),
            (*it).decrease() is Some,
            f == pred,
            forall|x: I::Item| pred.requires((x,)),
            0 <= k <= (*old(it)).remaining().len(),
            (*it).remaining() == (*old(it)).remaining().skip(k),
            forall|i: int| 0 <= i < k ==> pred.ensures(((*old(it)).remaining()[i],), true),
        decreases (*it).decrease()->0,
    {
        let ghost before = (*it).remaining();
        match it.next() {
            Some(x) => {
                proof {
                    assert((*it).remaining() =~= (*old(it)).remaining().skip(k + 1));
                }
                if !f(x) {
                    assert(pred.ensures(((*old(it)).remaining()[k],), false));
                    return false;
                }
                proof {
                    k = k + 1;
                }
            },
            None => {
                return true;
            },
        }
    }
}

/// The accumulators `accs` are a run of folding `items`, from the first to
/// the last, into `accs[0]` by `g`: each step turns `accs[i]` and `items[i]`
/// into `accs[i + 1]`.
pub open spec fn fold_run<T, Acc, G: FnMut(Acc, T) -> Acc>(g: G, items: Seq<T>, accs: Seq<Acc>) -> bool {
    &&& accs.len() == items.len() + 1
    &&& forall|i: int| 0 <= i < items.len() ==> g.ensures((accs[i], items[i]), #[trigger] accs[i + 1])
}

/// `out` is a possible result of folding `items`, from the first to the last,
/// into `init` by `g`.
pub open spec fn folds_to<T, Acc, G: FnMut(Acc, T) -> Acc>(
    g: G,
    items: Seq<T>,
    init: Acc,
    out: Acc,
) -> bool {
    exists|accs: Seq<Acc>|
        #[trigger] fold_run(g, items, accs) && accs[0] == init && accs.last() == out
}

/// Folds what `iter` still produces into `init` by `g`, in order.
fn fold_rest<I: Iterator, Acc, G: FnMut(Acc, I::Item) -> Acc>(iter: I, init: Acc, g: G) -> (r: Acc)
    requires
        iter.obeys_prophetic_iter_laws(),
        iter.decrease() is Some,
        forall|a: Acc, x: I::Item| g.requires((a, x)),
    ensures
        folds_to(g, iter.remaining(), init, r),
{
    let mut it = iter;
    let mut f = g;
    let mut acc = init;
    let ghost done: Seq<I::Item> = Seq::empty();
    let ghost accs: Seq<Acc> = seq![init];
    loop
        invariant
            it.obeys_prophetic_iter_laws(),
            it.decrease() is Some,
            f == g,
            forall|a: Acc, x: I::Item| g.requires((a, x)),
            done + it.remaining() == iter.remaining(),
            fold_run(g, done, accs),
            accs[0] == init,
            accs.last() == acc,
        decreases it.decrease()->0,
    {
        let ghost before = it.remaining();
        match it.next() {
            Some(x) => {
                let ghost prev = acc;
                acc = f(acc, x);
                proof {
                    let next_accs = accs.push(acc);
                    assert forall|i: int| 0 <= i < done.push(x).len() implies g.ensures(
                        (next_accs[i], done.push(x)[i]),
                        #[trigger] next_accs[i + 1],
                    ) by {
                        if i < done.len() {
                            assert(g.ensures((accs[i], done[i]), accs[i + 1]));
                        }
                    }
                    assert(done.push(x) + it.remaining() =~= done + before);
                    done = done.push(x);
                    accs = next_accs;
                }
            },
            None => {
                proof {
                    assert(done =~= iter.remaining());
                    assert(fold_run(g, iter.remaining(), accs));
                }
                return acc;
            },
        }
    }
}

/// The last item that `iter` still produces, found by stepping it to its end.
fn last_rest<I: Iterator>(iter: I) -> (r: Option<I::Item>)
    requires
        iter.obeys_prophetic_iter_laws(),
        iter.decrease() is Some,
    ensures
        r == (if iter.remaining().len() > 0 {
            Some(iter.remaining().last())
        } else {
            None
        }),
{
    let mut it = iter;
    let mut last: Option<I::Item> = None;
    loop
        invariant
            it.obeys_prophetic_iter_laws(),
            it.decrease() is Some,
            iter.remaining().len() >= it.remaining().len(),
            it.remaining() == iter.remaining().subrange(
                iter.remaining().len() - it.remaining().len(),
                iter.remaining().len() as int,
            ),
            last == (if iter.remaining().len() > it.remaining().len() {
                Some(iter.remaining()[iter.remaining().len() - it.remaining().len() - 1])
            } else {
                None
            }),
        decreases it.decrease()->0,
    {
        match it.next() {
            Some(x) => {
                last = Some(x);
            },
            None => {
                return last;
            },
        }
    }
}

/// Skips `n` items of `it` and returns the one after them, if there is one.
fn nth_rest<I: Iterator>(it: &mut I, n: usize) -> (r: Option<I::Item>)
    requires
        (*old(it)).obeys_prophetic_iter_laws(),
        (*old(it)).decrease() is Some,
    ensures
        (*final(it)).obeys_prophetic_iter_laws(),
        n < (*old(it)).remaining().len() ==> {
            &&& r == Some((*old(it)).remaining()[n as int])
            &&& (*final(it)).remaining() == (*old(it)).remaining().skip(n + 1)
        },
        n >= (*old(it)).remaining().len() ==> {
            &&& r is None
            &&& (*final(it)).remaining().len() == 0
        },
{
    let mut k: usize = 0;
    loop
        invariant
            (*it).obeys_prophetic_iter_laws(),
            (*it).decrease() is Some,
            k <= n,
            k <= (*old(it)).remaining().len(),
            (*it).remaining() == (*old(it)).remaining().skip(k as int),
        decreases n - k,
    {
        match it.next() {
            Some(x) => {
                if k == n {
                    return Some(x);
                }
                k = k + 1;
            },
            None => {
                return None;
            },
        }
    }
}

impl<L, R> Either<L, R> where L: Iterator, R: Iterator<Item = L::Item> {
    /// Advances the active side's iterator and returns what it produced.
    pub fn next(&mut self) -> (r: Option<L::Item>)
        ensures
            match (*old(self), *final(self)) {
                (Either::Left(a), Either::Left(b)) => a.obeys_prophetic_iter_laws() ==> {
                    &&& b.obeys_prophetic_iter_laws()
                    &&& if a.remaining().len() > 0 {
                        &&& b.remaining() == a.remaining().drop_first()
                        &&& r == Some(a.remaining()[0])
                    } else {
                        &&& b.remaining() == a.remaining()
                        &&& r is None
                    }
                },
                (Either::Right(a), Either::Right(b)) => a.obeys_prophetic_iter_laws() ==> {
                    &&& b.obeys_prophetic_iter_laws()
                    &&& if a.remaining().len() > 0 {
                        &&& b.remaining() == a.remaining().drop_first()
                        &&& r == Some(a.remaining()[0])
                    } else {
                        &&& b.remaining() == a.remaining()
                        &&& r is None
                    }
                },
                _ => false,
            },
    {
        match self {
            Either::Left(inner) => inner.next(),
            Either::Right(inner) => inner.next(),
        }
    }

    /// Counts the items that the active side's iterator still produces,
    /// running it to its end. The active iterator must follow the iterator
    /// laws with a termination measure (so that it ends), and its count must
    /// fit in a `usize`.
    pub fn count(self) -> (n: usize)
        requires
            match self {
            Either::Left(a) => {
                &&& a.obeys_prophetic_iter_laws()
                &&& a.decrease() is Some
                &&& a.remaining().len() <= usize::MAX
            },
            Either::Right(a) => {
                &&& a.obeys_prophetic_iter_laws()
                &&& a.decrease() is Some
                &&& a.remaining().len() <= usize::MAX
            },
            },
        ensures
            n == match self {
                Either::Left(a) => a.remaining().len(),
                Either::Right(a) => a.remaining().len(),
            },
    {
        match self {
            Either::Left(inner) => count_rest(inner),
            Either::Right(inner) => count_rest(inner),
        }
    }

    /// Gathers, in order, the items that the active side's iterator still
    /// produces, running it to its end.
    pub fn collect(self) -> (v: Vec<L::Item>)
        requires
            match self {
                Either::Left(a) => a.obeys_prophetic_iter_laws() && a.decrease() is Some,
                Either::Right(a) => a.obeys_prophetic_iter_laws() && a.decrease() is Some,
            },
        ensures
            v@ == match self {
                Either::Left(a) => a.remaining(),
                Either::Right(a) => a.remaining(),
            },
    {
        match self {
            Either::Left(inner) => collect_rest(inner),
            Either::Right(inner) => collect_rest(inner),
        }
    }

    /// Whether `f` holds of every item that the active side's iterator still
    /// produces. The walk stops just after the first item of which `f` does
    /// not hold, having found `f` true of every item before it; the side stays
    /// the same.
    pub fn all<F: FnMut(L::Item) -> bool>(&mut self, f: F) -> (r: bool)
        requires
            match *old(self) {
                Either::Left(a) => a.obeys_prophetic_iter_laws() && a.decrease() is Some,
                Either::Right(a) => a.obeys_prophetic_iter_laws() && a.decrease() is Some,
            },
            forall|x: L::Item| f.requires((x,)),
        ensures
            match (*old(self), *final(self)) {
                (Either::Left(a), Either::Left(b)) => {
                    &&& r ==> b.remaining().len() == 0
                    &&& r ==> forall|i: int|
                        0 <= i < a.remaining().len() ==> f.ensures((a.remaining()[i],), true)
                    &&& !r ==> exists|i: int|
                        {
                            &&& 0 <= i < a.remaining().len()
                            &&& forall|j: int|
                                0 <= j < i ==> f.ensures((a.remaining()[j],), true)
                            &&& f.ensures((a.remaining()[i],), false)
                            &&& b.remaining() == a.remaining().skip(i + 1)
                        }
                },
                (Either::Right(a), Either::Right(b)) => {
                    &&& r ==> b.remaining().len() == 0
                    &&& r ==> forall|i: int|
                        0 <= i < a.remaining().len() ==> f.ensures((a.remaining()[i],), true)
                    &&& !r ==> exists|i: int|
                        {
                            &&& 0 <= i < a.remaining().len()
                            &&& forall|j: int|
                                0 <= j < i ==> f.ensures((a.remaining()[j],), true)
                            &&& f.ensures((a.remaining()[i],), false)
                            &&& b.remaining() == a.remaining().skip(i + 1)
                        }
                },
                _ => false,
            },
    {
        match self {
            Either::Left(inner) => all_rest(inner, f),
            Either::Right(inner) => all_rest(inner, f),
        }
    }

    /// Folds the items that the active side's iterator still produces into
    /// `init` by `g`, in order, running it to its end.
    pub fn fold<Acc, G: FnMut(Acc, L::Item) -> Acc>(self, init: Acc, g: G) -> (r: Acc)
        requires
            match self {
                Either::Left(a) => a.obeys_prophetic_iter_laws() && a.decrease() is Some,
                Either::Right(a) => a.obeys_prophetic_iter_laws() && a.decrease() is Some,
            },
            forall|a: Acc, x: L::Item| g.requires((a, x)),
        ensures
            match self {
                Either::Left(a) => folds_to(g, a.remaining(), init, r),
                Either::Right(a) => folds_to(g, a.remaining(), init, r),
            },
    {
        match self {
            Either::Left(inner) => fold_rest(inner, init, g),
            Either::Right(inner) => fold_rest(inner, init, g),
        }
    }

    /// The last item that the active side's iterator produces, running it to
    /// its end; `None` when it produces nothing more.
    pub fn last(self) -> (r: Option<L::Item>)
        requires
            match self {
            Either::Left(a) => {
                &&& a.obeys_prophetic_iter_laws()
                &&& a.decrease() is Some
            },
            Either::Right(a) => {
                &&& a.obeys_prophetic_iter_laws()
                &&& a.decrease() is Some
            },
            },
        ensures
            match self {
                Either::Left(a) => r == (if a.remaining().len() > 0 {
                    Some(a.remaining().last())
                } else {
                    None
                }),
                Either::Right(a) => r == (if a.remaining().len() > 0 {
                    Some(a.remaining().last())
                } else {
                    None
                }),
            },
    {
        match self {
            Either::Left(inner) => last_rest(inner),
            Either::Right(inner) => last_rest(inner),
        }
    }

    /// Skips `n` items of the active side's iterator and returns the next
    /// one, if there is one; the side stays the same.
    pub fn nth(&mut self, n: usize) -> (r: Option<L::Item>)
        requires
            match *old(self) {
            Either::Left(a) => {
                &&& a.obeys_prophetic_iter_laws()
                &&& a.decrease() is Some
            },
            Either::Right(a) => {
                &&& a.obeys_prophetic_iter_laws()
                &&& a.decrease() is Some
            },
            },
        ensures
            match (*old(self), *final(self)) {
                (Either::Left(a), Either::Left(b)) => {
                    &&& b.obeys_prophetic_iter_laws()
                    &&& n < a.remaining().len() ==> {
                        &&& r == Some(a.remaining()[n as int])
                        &&& b.remaining() == a.remaining().skip(n + 1)
                    }
                    &&& n >= a.remaining().len() ==> r is None && b.remaining().len() == 0
                },
                (Either::Right(a), Either::Right(b)) => {
                    &&& b.obeys_prophetic_iter_laws()
                    &&& n < a.remaining().len() ==> {
                        &&& r == Some(a.remaining()[n as int])
                        &&& b.remaining() == a.remaining().skip(n + 1)
                    }
                    &&& n >= a.remaining().len() ==> r is None && b.remaining().len() == 0
                },
                _ => false,
            },
    {
        match self {
            Either::Left(inner) => nth_rest(inner, n),
            Either::Right(inner) => nth_rest(inner, n),
        }
    }
}

impl<L, R> Either<L, R> where
    L: DoubleEndedIterator,
    R: DoubleEndedIterator<Item = <L as Iterator>::Item>,
 {
    /// Takes the next item from the back of the active side's iterator.
    pub fn next_back(&mut self) -> (r: Option<<L as Iterator>::Item>)
        ensures
            match (*old(self), *final(self)) {
                (Either::Left(a), Either::Left(b)) => IteratorSpec::obeys_prophetic_iter_laws(&a) ==> {
                    &&& IteratorSpec::obeys_prophetic_iter_laws(&b)
                    &&& if IteratorSpec::remaining(&a).len() > 0 {
                        &&& IteratorSpec::remaining(&b) == IteratorSpec::remaining(&a).drop_last()
                        &&& r == Some(IteratorSpec::remaining(&a).last())
                    } else {
                        &&& IteratorSpec::remaining(&b) == IteratorSpec::remaining(&a)
                        &&& r is None
                    }
                },
                (Either::Right(a), Either::Right(b)) => IteratorSpec::obeys_prophetic_iter_laws(&a) ==> {
                    &&& IteratorSpec::obeys_prophetic_iter_laws(&b)
                    &&& if IteratorSpec::remaining(&a).len() > 0 {
                        &&& IteratorSpec::remaining(&b) == IteratorSpec::remaining(&a).drop_last()
                        &&& r == Some(IteratorSpec::remaining(&a).last())
                    } else {
                        &&& IteratorSpec::remaining(&b) == IteratorSpec::remaining(&a)
                        &&& r is None
                    }
                },
                _ => false,
            },
    {
        match self {
            Either::Left(inner) => inner.next_back(),
            Either::Right(inner) => inner.next_back(),
        }
    }
}

/// Dereferences to the active side's target; both sides share the target type.
impl<L, R> std::ops::Deref for Either<L, R> where L: std::ops::Deref, R: std::ops::Deref<Target = L::Target> {
    type Target = L::Target;

    fn deref(&self) -> &Self::Target {
        match self {
            Either::Left(inner) => inner.deref(),
            Either::Right(inner) => inner.deref(),
        }
    }
}

/// Dereferences mutably to the active side's target.
impl<L, R> std::ops::DerefMut for Either<L, R> where
    L: std::ops::DerefMut,
    R: std::ops::DerefMut<Target = L::Target>,
 {
    fn deref_mut(&mut self) -> &mut Self::Target {
        match self {
            Either::Left(inner) => inner.deref_mut(),
            Either::Right(inner) => inner.deref_mut(),
        }
    }
}

/// Relies on `std::iter::Extend::extend`.
#[verifier::external_body]
fn extend_from<T: Extend<A>, A, I: Iterator<Item = A>>(t: &mut T, iter: I) {
    t.extend(iter)
}

impl<L, R> Either<L, R> {
    /// Extends the active side's collection, in place, with the items of `iter`;
    /// the side stays the same.
    pub fn extend<A, I: Iterator<Item = A>>(&mut self, iter: I)
        where
            L: Extend<A>,
            R: Extend<A>,
        ensures
            (*final(self) is Left) == (*old(self) is Left),
    {
        match self {
            Either::Left(inner) => extend_from(inner, iter),
            Either::Right(inner) => extend_from(inner, iter),
        }
    }
}

/// Relies on `std::convert::AsRef::as_ref`.
#[verifier::external_body]
fn ref_of<T: AsRef<U>, U: ?Sized>(t: &T) -> &U {
    t.as_ref()
}

/// Relies on `std::convert::AsMut::as_mut`.
#[verifier::external_body]
fn mut_of<T: AsMut<U>, U: ?Sized>(t: &mut T) -> &mut U {
    t.as_mut()
}

/// Converts to a reference of the target that both sides convert to.
impl<L, R, Target: ?Sized> AsRef<Target> for Either<L, R> where L: AsRef<Target>, R: AsRef<Target> {
    fn as_ref(&self) -> &Target {
        match self {
            Either::Left(inner) => ref_of(inner),
            Either::Right(inner) => ref_of(inner),
        }
    }
}

/// Converts to a mutable reference of the target that both sides convert to.
impl<L, R, Target: ?Sized> AsMut<Target> for Either<L, R> where L: AsMut<Target>, R: AsMut<Target> {
    fn as_mut(&mut self) -> &mut Target {
        match self {
            Either::Left(inner) => mut_of(inner),
            Either::Right(inner) => mut_of(inner),
        }
    }
}

/// Relies on `std::iter::Iterator::size_hint`, which promises nothing that a
/// caller may rely on.
#[verifier::external_body]
fn hint_of<I: Iterator>(it: &I) -> (usize, Option<usize>) {
    it.size_hint()
}

/// Relies on `std::iter::ExactSizeIterator::len`: the exact number of items
/// that the iterator will still produce.
#[verifier::external_body]
fn len_of<I: ExactSizeIterator>(it: &I) -> (r: usize)
    ensures
        it.obeys_prophetic_iter_laws() ==> r == it.remaining().len(),
{
    it.len()
}

/// Relies on `std::error::Error::description`.
#[verifier::external_body]
#[allow(deprecated)]
fn description_of<T: std::error::Error>(e: &T) -> &str {
    e.description()
}

/// Relies on `std::fmt::Display::fmt`, run through `format!`, for the text of `t`.
#[verifier::external_body]
fn text_of<T: std::fmt::Display>(t: &T) -> String {
    format!("{}", t)
}

impl<L, R> Either<L, R> where L: Iterator, R: Iterator<Item = L::Item> {
    /// The active side's own estimate of how many items remain.
    pub fn size_hint(&self) -> (usize, Option<usize>) {
        match self {
            Either::Left(inner) => hint_of(inner),
            Either::Right(inner) => hint_of(inner),
        }
    }
}

impl<L, R> Either<L, R> where
    L: ExactSizeIterator,
    R: ExactSizeIterator<Item = <L as Iterator>::Item>,
 {
    /// The exact number of items that the active side's iterator will still produce.
    pub fn len(&self) -> (r: usize)
        ensures
            match self {
                Either::Left(a) => a.obeys_prophetic_iter_laws() ==> r == a.remaining().len(),
                Either::Right(a) => a.obeys_prophetic_iter_laws() ==> r == a.remaining().len(),
            },
    {
        match self {
            Either::Left(inner) => len_of(inner),
            Either::Right(inner) => len_of(inner),
        }
    }
}

impl<L, R> Either<L, R> where L: std::error::Error, R: std::error::Error {
    /// The active side's error description.
    pub fn description(&self) -> &str {
        match self {
            Either::Left(inner) => description_of(inner),
            Either::Right(inner) => description_of(inner),
        }
    }
}

impl<L, R> Either<L, R> where L: std::fmt::Display, R: std::fmt::Display {
    /// The text that the active side displays as.
    pub fn to_string(&self) -> String {
        match self {
            Either::Left(inner) => text_of(inner),
            Either::Right(inner) => text_of(inner),
        }
    }
}

} // verus!
