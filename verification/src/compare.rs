//! Comparing what a function was called with to a slice, an array or a
//! vector of expected arguments, from either side.
//!
//! Each comparison reads what is captured at the time of the call, under the
//! lock, so two comparisons of the same values may differ where a call was
//! recorded in between. No comparison here therefore obeys a specification:
//! `obeys_eq_spec` is false throughout, and `eq_spec` is never consulted.
//! As with `Arguments::get`, the thread that compares must not hold a guard
//! of the same arguments.
use vstd::prelude::*;
use vstd::std_specs::cmp::PartialEqSpecImpl;
use crate::spy_function::{guarded, Arguments};

verus! {

/// `PartialEq::eq` of two slices: whether they have the same length and each
/// left item says that it equals the right item at its place. What an item
/// says is the business of its own `PartialEq`, so nothing is claimed of the
/// result.
#[verifier::external_body]
fn same_items<L: PartialEq<R>, R>(left: &[L], right: &[R]) -> (same: bool) {
    left == right
}

impl<A, B: PartialEq<A>> PartialEq<[B]> for Arguments<A> {
    fn eq(&self, other: &[B]) -> (same: bool) {
        let mut guard = self.get();
        same_items(other, guarded(&mut guard).as_slice())
    }
}

impl<A, B: PartialEq<A>> PartialEqSpecImpl<[B]> for Arguments<A> {
    open spec fn obeys_eq_spec() -> bool {
        false
    }

    open spec fn eq_spec(&self, other: &[B]) -> bool {
        false
    }
}

impl<A: PartialEq<B>, B> PartialEq<Arguments<A>> for [B] {
    fn eq(&self, other: &Arguments<A>) -> (same: bool) {
        let mut guard = other.get();
        same_items(guarded(&mut guard).as_slice(), self)
    }
}

impl<A: PartialEq<B>, B> PartialEqSpecImpl<Arguments<A>> for [B] {
    open spec fn obeys_eq_spec() -> bool {
        false
    }

    open spec fn eq_spec(&self, other: &Arguments<A>) -> bool {
        false
    }
}

impl<A, B: PartialEq<A>, const N: usize> PartialEq<[B; N]> for Arguments<A> {
    fn eq(&self, other: &[B; N]) -> (same: bool) {
        let mut guard = self.get();
        same_items(other.as_slice(), guarded(&mut guard).as_slice())
    }
}

impl<A, B: PartialEq<A>, const N: usize> PartialEqSpecImpl<[B; N]> for Arguments<A> {
    open spec fn obeys_eq_spec() -> bool {
        false
    }

    open spec fn eq_spec(&self, other: &[B; N]) -> bool {
        false
    }
}

impl<A: PartialEq<B>, B, const N: usize> PartialEq<Arguments<A>> for [B; N] {
    fn eq(&self, other: &Arguments<A>) -> (same: bool) {
        let mut guard = other.get();
        same_items(guarded(&mut guard).as_slice(), self.as_slice())
    }
}

impl<A: PartialEq<B>, B, const N: usize> PartialEqSpecImpl<Arguments<A>> for [B; N] {
    open spec fn obeys_eq_spec() -> bool {
        false
    }

    open spec fn eq_spec(&self, other: &Arguments<A>) -> bool {
        false
    }
}

impl<A, B: PartialEq<A>, const N: usize> PartialEq<&[B; N]> for Arguments<A> {
    fn eq(&self, other: &&[B; N]) -> (same: bool) {
        let mut guard = self.get();
        same_items(other.as_slice(), guarded(&mut guard).as_slice())
    }
}

impl<A, B: PartialEq<A>, const N: usize> PartialEqSpecImpl<&[B; N]> for Arguments<A> {
    open spec fn obeys_eq_spec() -> bool {
        false
    }

    open spec fn eq_spec(&self, other: &&[B; N]) -> bool {
        false
    }
}

impl<A: PartialEq<B>, B, const N: usize> PartialEq<Arguments<A>> for &[B; N] {
    fn eq(&self, other: &Arguments<A>) -> (same: bool) {
        let mut guard = other.get();
        same_items(guarded(&mut guard).as_slice(), self.as_slice())
    }
}

impl<A: PartialEq<B>, B, const N: usize> PartialEqSpecImpl<Arguments<A>> for &[B; N] {
    open spec fn obeys_eq_spec() -> bool {
        false
    }

    open spec fn eq_spec(&self, other: &Arguments<A>) -> bool {
        false
    }
}

impl<A, B: PartialEq<A>> PartialEq<&[B]> for Arguments<A> {
    fn eq(&self, other: &&[B]) -> (same: bool) {
        let mut guard = self.get();
        same_items(*other, guarded(&mut guard).as_slice())
    }
}

impl<A, B: PartialEq<A>> PartialEqSpecImpl<&[B]> for Arguments<A> {
    open spec fn obeys_eq_spec() -> bool {
        false
    }

    open spec fn eq_spec(&self, other: &&[B]) -> bool {
        false
    }
}

impl<A: PartialEq<B>, B> PartialEq<Arguments<A>> for &[B] {
    fn eq(&self, other: &Arguments<A>) -> (same: bool) {
        let mut guard = other.get();
        same_items(guarded(&mut guard).as_slice(), *self)
    }
}

impl<A: PartialEq<B>, B> PartialEqSpecImpl<Arguments<A>> for &[B] {
    open spec fn obeys_eq_spec() -> bool {
        false
    }

    open spec fn eq_spec(&self, other: &Arguments<A>) -> bool {
        false
    }
}

impl<A: PartialEq<B>, B> PartialEq<Vec<B>> for Arguments<A> {
    fn eq(&self, other: &Vec<B>) -> (same: bool) {
        let mut guard = self.get();
        *guarded(&mut guard) == *other
    }
}

impl<A: PartialEq<B>, B> PartialEqSpecImpl<Vec<B>> for Arguments<A> {
    open spec fn obeys_eq_spec() -> bool {
        false
    }

    open spec fn eq_spec(&self, other: &Vec<B>) -> bool {
        false
    }
}

impl<A, B: PartialEq<A>> PartialEq<Arguments<A>> for Vec<B> {
    fn eq(&self, other: &Arguments<A>) -> (same: bool) {
        let mut guard = other.get();
        *self == *guarded(&mut guard)
    }
}

impl<A, B: PartialEq<A>> PartialEqSpecImpl<Arguments<A>> for Vec<B> {
    open spec fn obeys_eq_spec() -> bool {
        false
    }

    open spec fn eq_spec(&self, other: &Arguments<A>) -> bool {
        false
    }
}

}
