//! Laws relating pushes to the build operations.
//!
//! The lemmas here characterize, once and for all, the state a builder is in
//! after any sequence of pushes, and which build operations that state owes
//! success to. They are stated over the model functions of
//! [`crate::builder`], which the contracts of the executable operations use.

use vstd::prelude::*;

use crate::builder::exact_succeeds;
use crate::builder::pad_succeeds;
use crate::builder::spec_push_all;
use crate::builder::truncate_succeeds;

verus! {

/// Closed form of [`spec_push_all`]: pushing `values` into a builder that
/// stores `items` (within capacity) appends values until the capacity `cap`
/// is reached, in order and without reordering what was already stored, and
/// counts every later value as excess.
pub proof fn lemma_push_all<T>(items: Seq<T>, excess: nat, cap: nat, values: Seq<T>)
    requires
        items.len() <= cap,
    ensures
        items.len() + values.len() <= cap ==> spec_push_all(items, excess, cap, values) == (
            items + values,
            excess,
        ),
        items.len() + values.len() > cap ==> spec_push_all(items, excess, cap, values) == (
            items + values.take((cap - items.len()) as int),
            (excess + items.len() + values.len() - cap) as nat,
        ),
    decreases values.len(),
{
    if values.len() == 0 {
        assert(items + values =~= items);
    } else {
        let rest = values.subrange(1, values.len() as int);
        if items.len() < cap {
            lemma_push_all(items.push(values[0]), excess, cap, rest);
            if items.len() + values.len() <= cap {
                assert(items.push(values[0]) + rest =~= items + values);
            } else {
                assert(items.push(values[0]) + rest.take((cap - items.len() - 1) as int)
                    =~= items + values.take((cap - items.len()) as int));
            }
        } else {
            lemma_push_all(items, excess + 1, cap, rest);
            assert(values.take(0) =~= Seq::<T>::empty());
            assert(items + values.take(0) =~= items);
            assert(items + rest.take(0) =~= items);
        }
    }
}

/// Law: pushing exactly `cap` values into a fresh builder stores all of them,
/// in push order, with no excess — the state on which the strict build is
/// owed success, and from which it returns exactly those values.
pub proof fn lemma_fill_exact<T>(values: Seq<T>, cap: nat)
    requires
        values.len() == cap,
    ensures
        spec_push_all(Seq::<T>::empty(), 0, cap, values) == (values, 0nat),
        exact_succeeds(values.len(), 0, cap),
{
    lemma_push_all(Seq::<T>::empty(), 0, cap, values);
    assert(Seq::<T>::empty() + values =~= values);
}

/// Law: pushing fewer than `cap` values into a fresh builder stores all of
/// them with no excess. The strict build is refused on that state — its error
/// reports `cap` expected against the pushed count — while the padding build
/// is owed success on it.
pub proof fn lemma_fill_short<T>(values: Seq<T>, cap: nat)
    requires
        values.len() < cap,
    ensures
        spec_push_all(Seq::<T>::empty(), 0, cap, values) == (values, 0nat),
        !exact_succeeds(values.len(), 0, cap),
        pad_succeeds(0),
{
    lemma_push_all(Seq::<T>::empty(), 0, cap, values);
    assert(Seq::<T>::empty() + values =~= values);
}

/// Law: pushing more than `cap` values into a fresh builder stores exactly
/// the first `cap` of them, in push order, and counts the rest as excess.
/// Both the strict and the padding build are refused on that state, while the
/// truncating builds are owed success on it, using only the stored values.
pub proof fn lemma_fill_excess<T>(values: Seq<T>, cap: nat)
    requires
        values.len() > cap,
    ensures
        spec_push_all(Seq::<T>::empty(), 0, cap, values) == (
            values.take(cap as int),
            (values.len() - cap) as nat,
        ),
        !exact_succeeds(cap, (values.len() - cap) as nat, cap),
        !pad_succeeds((values.len() - cap) as nat),
        truncate_succeeds(cap, cap),
{
    lemma_push_all(Seq::<T>::empty(), 0, cap, values);
    assert(Seq::<T>::empty() + values.take(cap as int) =~= values.take(cap as int));
}

} // verus!
