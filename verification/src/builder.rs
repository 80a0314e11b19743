//! A fixed-capacity array builder: accumulates up to `N` items and assembles
//! them into a `[T; N]` on demand.
//!
//! The builder stores the items pushed so far (at most `N` of them, in push
//! order) and counts every push beyond capacity as excess. The model of a
//! builder is the sequence of stored items together with the excess count;
//! [`spec_push`] and [`spec_push_all`] describe how pushes act on that model.

use vstd::prelude::*;

use crate::errors::Error;

verus! {

/// How a single push acts on the model of a builder: while fewer than `cap`
/// items are stored the value is appended, afterwards it is discarded and the
/// excess count grows by one.
pub open spec fn spec_push<T>(items: Seq<T>, excess: nat, cap: nat, value: T) -> (Seq<T>, nat) {
    if items.len() < cap {
        (items.push(value), excess)
    } else {
        (items, excess + 1)
    }
}

/// How pushing a whole sequence of values, first to last, acts on the model
/// of a builder.
pub open spec fn spec_push_all<T>(items: Seq<T>, excess: nat, cap: nat, values: Seq<T>) -> (
    Seq<T>,
    nat,
)
    decreases values.len(),
{
    if values.len() == 0 {
        (items, excess)
    } else {
        let next = spec_push(items, excess, cap, values[0]);
        spec_push_all(next.0, next.1, cap, values.subrange(1, values.len() as int))
    }
}

/// The strict build succeeds exactly when the builder is full and no push was
/// ever discarded.
pub open spec fn exact_succeeds(stored: nat, excess: nat, cap: nat) -> bool {
    stored == cap && excess == 0
}

/// The padding build succeeds exactly when no push was ever discarded.
pub open spec fn pad_succeeds(excess: nat) -> bool {
    excess == 0
}

/// The truncating build succeeds exactly when the builder is full, however
/// many pushes were discarded.
pub open spec fn truncate_succeeds(stored: nat, cap: nat) -> bool {
    stored == cap
}

/// Build an array dynamically, deferring count mismatches to a single build
/// call.
///
/// The builder holds the first `N` pushed items in push order; later pushes
/// are discarded immediately and only counted. Its view `self@` is the
/// sequence of stored items, and [`ArrayBuilder::spec_excess`] counts the
/// discarded pushes.
#[derive(Debug, Clone)]
pub struct ArrayBuilder<T, const N: usize> {
    inner: Vec<T>,
    excess: usize,
}

impl<T, const N: usize> View for ArrayBuilder<T, N> {
    type V = Seq<T>;

    closed spec fn view(&self) -> Seq<T> {
        self.inner@
    }
}

impl<T, const N: usize> ArrayBuilder<T, N> {
    /// The number of pushes that arrived after the builder was already full
    /// and were therefore discarded.
    pub closed spec fn spec_excess(&self) -> nat {
        self.excess as nat
    }

    /// Well-formedness: never more than `N` items are stored.
    pub closed spec fn wf(&self) -> bool {
        self.inner@.len() <= N
    }

    /// Create a new, empty builder.
    pub fn new() -> (r: Self)
        ensures
            r@ == Seq::<T>::empty(),
            r.spec_excess() == 0,
            r.wf(),
    {
        ArrayBuilder { inner: Vec::new(), excess: 0 }
    }

    /// Insert an item into the builder.
    ///
    /// If the builder is already full, the item is immediately dropped and
    /// only the excess count grows.
    pub fn push(&mut self, item: T)
        requires
            old(self).wf(),
            old(self).spec_excess() < usize::MAX,
        ensures
            final(self).wf(),
            (final(self)@, final(self).spec_excess()) == spec_push(
                old(self)@,
                old(self).spec_excess(),
                N as nat,
                item,
            ),
            old(self)@.len() < N ==> final(self)@ == old(self)@.push(item)
                && final(self).spec_excess() == old(self).spec_excess(),
            old(self)@.len() == N ==> final(self)@ == old(self)@ && final(self).spec_excess()
                == old(self).spec_excess() + 1,
    {
        if self.inner.len() < N {
            self.inner.push(item);
        } else {
            self.excess = self.excess + 1;
        }
    }

    /// Report a count mismatch: the capacity that had to be filled against
    /// the total number of pushes that were attempted.
    fn error(&self) -> (r: Error)
        requires
            self@.len() + self.spec_excess() <= usize::MAX,
        ensures
            r.expected == N,
            r.actual == self@.len() + self.spec_excess(),
    {
        Error { expected: N, actual: self.inner.len() + self.excess }
    }

    /// Fill every remaining slot, in ascending index order, with a clone of
    /// `item`. Stored items are never reordered or overwritten.
    fn pad_with(&mut self, item: &T)
        where T: Clone,
        requires
            old(self).wf(),
        ensures
            final(self).wf(),
            final(self)@.len() == N,
            final(self)@.subrange(0, old(self)@.len() as int) == old(self)@,
            forall|i: int|
                old(self)@.len() <= i < N ==> cloned(*item, #[trigger] final(self)@[i]),
            final(self).spec_excess() == old(self).spec_excess(),
    {
        while self.inner.len() < N
            invariant
                old(self)@.len() <= self.inner@.len() <= N,
                self.inner@.subrange(0, old(self)@.len() as int) == old(self)@,
                forall|i: int|
                    old(self)@.len() <= i < self.inner@.len() ==> cloned(
                        *item,
                        #[trigger] self.inner@[i],
                    ),
                self.excess == old(self).spec_excess(),
            decreases N - self.inner@.len(),
        {
            self.inner.push(item.clone());
        }
        proof {
            assert(final(self)@.subrange(0, old(self)@.len() as int) =~= old(self)@);
        }
    }

    /// Move the `N` stored items out as an array and leave the storage empty.
    fn take_full(&mut self) -> (r: [T; N])
        requires
            old(self)@.len() == N,
        ensures
            r@ == old(self)@,
            final(self)@ == Seq::<T>::empty(),
            final(self).wf(),
            final(self).spec_excess() == old(self).spec_excess(),
    {
        let mut taken: Vec<T> = Vec::new();
        core::mem::swap(&mut self.inner, &mut taken);
        vec_into_array(taken)
    }

    /// Require exactly `N` calls to [`ArrayBuilder::push`].
    ///
    /// On success the `N` stored items move out in push order and the builder
    /// is reset to the fresh empty state. On failure the builder is
    /// unchanged.
    pub fn build_exact(&mut self) -> (r: Result<[T; N], Error>)
        requires
            old(self).wf(),
            old(self)@.len() + old(self).spec_excess() <= usize::MAX,
        ensures
            final(self).wf(),
            r is Ok <==> exact_succeeds(old(self)@.len(), old(self).spec_excess(), N as nat),
            r is Ok ==> r->Ok_0@ == old(self)@ && final(self)@ == Seq::<T>::empty()
                && final(self).spec_excess() == 0,
            r is Err ==> final(self)@ == old(self)@ && final(self).spec_excess() == old(
                self,
            ).spec_excess() && r->Err_0.expected == N && r->Err_0.actual == old(self)@.len() + old(
                self,
            ).spec_excess(),
    {
        if self.inner.len() == N && self.excess == 0 {
            Ok(self.take_full())
        } else {
            Err(self.error())
        }
    }

    /// Fill the remaining slots with clones of `item`, returning an [`Err`]
    /// if there were too many calls to [`ArrayBuilder::push`].
    ///
    /// On success the array holds the stored items in push order followed by
    /// the pad clones, and the builder is reset to the fresh empty state. On
    /// failure the builder is unchanged.
    pub fn build_pad(&mut self, item: T) -> (r: Result<[T; N], Error>)
        where T: Clone,
        requires
            old(self).wf(),
            old(self)@.len() + old(self).spec_excess() <= usize::MAX,
        ensures
            final(self).wf(),
            r is Ok <==> pad_succeeds(old(self).spec_excess()),
            r is Ok ==> r->Ok_0@.len() == N && r->Ok_0@.subrange(0, old(self)@.len() as int) == old(
                self,
            )@ && final(self)@ == Seq::<T>::empty() && final(self).spec_excess() == 0,
            r is Ok ==> forall|i: int|
                0 <= i < old(self)@.len() ==> #[trigger] r->Ok_0@[i] == old(self)@[i],
            r is Ok ==> forall|i: int|
                old(self)@.len() <= i < N ==> cloned(item, #[trigger] r->Ok_0@[i]),
            r is Err ==> final(self)@ == old(self)@ && final(self).spec_excess() == old(
                self,
            ).spec_excess() && r->Err_0.expected == N && r->Err_0.actual == old(self)@.len() + old(
                self,
            ).spec_excess(),
    {
        if self.excess > 0 {
            return Err(self.error());
        }
        self.pad_with(&item);
        Ok(self.take_full())
    }

    /// Fill the remaining slots with clones of `item`, forgiving any excess
    /// calls to [`ArrayBuilder::push`].
    ///
    /// Always succeeds: the array holds the stored items in push order
    /// followed by the pad clones, and the builder is reset to the fresh
    /// empty state, its excess count included.
    pub fn build_pad_truncate(&mut self, item: T) -> (r: [T; N])
        where T: Clone,
        requires
            old(self).wf(),
        ensures
            final(self).wf(),
            r@.len() == N,
            r@.subrange(0, old(self)@.len() as int) == old(self)@,
            forall|i: int| 0 <= i < old(self)@.len() ==> #[trigger] r@[i] == old(self)@[i],
            forall|i: int| old(self)@.len() <= i < N ==> cloned(item, #[trigger] r@[i]),
            final(self)@ == Seq::<T>::empty(),
            final(self).spec_excess() == 0,
    {
        self.pad_with(&item);
        self.excess = 0;
        self.take_full()
    }

    /// Build the array from the stored items alone, forgiving any excess
    /// calls to [`ArrayBuilder::push`].
    ///
    /// Succeeds exactly when `N` items are stored; no padding is performed.
    /// On success the stored items move out in push order and the storage is
    /// left empty, while the excess count is kept. On failure the builder is
    /// unchanged.
    pub fn build_truncate(&mut self) -> (r: Result<[T; N], Error>)
        requires
            old(self).wf(),
            old(self)@.len() + old(self).spec_excess() <= usize::MAX,
        ensures
            final(self).wf(),
            r is Ok <==> truncate_succeeds(old(self)@.len(), N as nat),
            r is Ok ==> r->Ok_0@ == old(self)@ && final(self)@ == Seq::<T>::empty()
                && final(self).spec_excess() == old(self).spec_excess(),
            r is Err ==> final(self)@ == old(self)@ && final(self).spec_excess() == old(
                self,
            ).spec_excess() && r->Err_0.expected == N && r->Err_0.actual == old(self)@.len() + old(
                self,
            ).spec_excess(),
    {
        if self.inner.len() == N {
            Ok(self.take_full())
        } else {
            Err(self.error())
        }
    }

    /// Return the items stored so far, in push order.
    ///
    /// Does not include excess items, which were discarded at push time.
    pub fn as_slice(&self) -> (r: &[T])
        ensures
            r@ == self@,
    {
        self.inner.as_slice()
    }

    /// Return the items stored so far, in push order, for mutation in place.
    ///
    /// Does not include excess items. The caller may overwrite the stored
    /// items through the slice; the excess count is untouched.
    pub fn as_mut_slice(&mut self) -> (r: &mut [T])
        ensures
            r@ == old(self)@,
            final(self)@ == final(r)@,
            final(self).spec_excess() == old(self).spec_excess(),
            old(self).wf() && final(r)@.len() == old(self)@.len() ==> final(self).wf(),
    {
        self.inner.as_mut_slice()
    }

    /// Push every value of `items`, first to last: values are stored until
    /// the builder is full and counted as excess afterwards.
    pub fn extend(&mut self, items: Vec<T>)
        requires
            old(self).wf(),
            old(self).spec_excess() + items@.len() <= usize::MAX,
        ensures
            final(self).wf(),
            (final(self)@, final(self).spec_excess()) == spec_push_all(
                old(self)@,
                old(self).spec_excess(),
                N as nat,
                items@,
            ),
    {
        let ghost all: Seq<T> = items@;
        let mut items = items;
        while items.len() > 0
            invariant
                self.wf(),
                self.spec_excess() + items@.len() <= usize::MAX,
                spec_push_all(self@, self.spec_excess(), N as nat, items@) == spec_push_all(
                    old(self)@,
                    old(self).spec_excess(),
                    N as nat,
                    all,
                ),
            decreases items@.len(),
        {
            let ghost before: Seq<T> = items@;
            let value = items.remove(0);
            proof {
                assert(items@ =~= before.subrange(1, before.len() as int));
            }
            self.push(value);
        }
    }

    /// Create a builder holding the values of `items`, pushed first to last.
    pub fn from_vec(items: Vec<T>) -> (r: Self)
        ensures
            r.wf(),
            (r@, r.spec_excess()) == spec_push_all(Seq::<T>::empty(), 0, N as nat, items@),
    {
        // The call pins the spec-level length below `usize::MAX`, which the
        // excess bound of `extend` needs.
        let _count: usize = items.len();
        let mut this = Self::new();
        this.extend(items);
        this
    }
}

impl<T, const N: usize> Default for ArrayBuilder<T, N> {
    /// Create a new, empty builder.
    fn default() -> (r: Self)
        ensures
            r@ == Seq::<T>::empty(),
            r.spec_excess() == 0,
            r.wf(),
    {
        ArrayBuilder::new()
    }
}

/// Relies on the standard conversion from `Vec<T>` to `[T; N]`
/// (`TryFrom<Vec<T>> for [T; N]`), which yields the vector's elements exactly
/// when the length matches the requested array size.
#[verifier::external_body]
fn vec_into_array<T, const N: usize>(v: Vec<T>) -> (r: [T; N])
    requires
        v@.len() == N,
    ensures
        r@ == v@,
{
    v.try_into().ok().unwrap()
}

/// Shorthand for [`ArrayBuilder::new`].
pub fn new<T, const N: usize>() -> (r: ArrayBuilder<T, N>)
    ensures
        r@ == Seq::<T>::empty(),
        r.spec_excess() == 0,
        r.wf(),
{
    ArrayBuilder::new()
}

} // verus!
