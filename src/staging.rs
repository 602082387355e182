//! Fixed-capacity lists of staging-buffer identifiers, kept in `arrayvec::ArrayVec`.
use arrayvec::ArrayVec;
use vstd::prelude::*;

use crate::PRESENTATION_BUFFER_COUNT;

verus! {

#[verifier::external_type_specification]
#[verifier::external_body]
#[verifier::reject_recursive_types(T)]
pub struct ExArrayVec<T, const CAP: usize>(ArrayVec<T, CAP>);

/// The identifiers held by a staging list, first pushed first.
pub uninterp spec fn staged_ids(v: ArrayVec<u64, PRESENTATION_BUFFER_COUNT>) -> Seq<u64>;

/// Relies on `ArrayVec::new`: a new vector holds nothing.
#[verifier::external_body]
pub(crate) fn ids_new() -> (r: ArrayVec<u64, PRESENTATION_BUFFER_COUNT>)
    ensures
        staged_ids(r) == Seq::<u64>::empty(),
{
    ArrayVec::new()
}

/// Relies on `ArrayVec::len`: the number of elements, never above the capacity.
#[verifier::external_body]
pub(crate) fn ids_len(v: &ArrayVec<u64, PRESENTATION_BUFFER_COUNT>) -> (r: usize)
    ensures
        r == staged_ids(*v).len(),
        r <= PRESENTATION_BUFFER_COUNT,
{
    v.len()
}

/// Relies on `ArrayVec::push`: appends at the end; it panics only when full.
#[verifier::external_body]
pub(crate) fn ids_push(v: &mut ArrayVec<u64, PRESENTATION_BUFFER_COUNT>, x: u64)
    requires
        staged_ids(*old(v)).len() < PRESENTATION_BUFFER_COUNT,
    ensures
        staged_ids(*final(v)) == staged_ids(*old(v)).push(x),
{
    v.push(x)
}

/// Relies on `ArrayVec::pop`: removes and returns the last element, if any.
#[verifier::external_body]
pub(crate) fn ids_pop(v: &mut ArrayVec<u64, PRESENTATION_BUFFER_COUNT>) -> (r: Option<u64>)
    ensures
        staged_ids(*old(v)).len() == 0 ==> r.is_none() && staged_ids(*final(v)) == staged_ids(*old(v)),
        staged_ids(*old(v)).len() > 0 ==> r == Some(staged_ids(*old(v)).last())
            && staged_ids(*final(v)) == staged_ids(*old(v)).drop_last(),
{
    v.pop()
}

/// Relies on `ArrayVec::remove`: takes out the element at `i` and shifts the rest down.
#[verifier::external_body]
pub(crate) fn ids_remove(v: &mut ArrayVec<u64, PRESENTATION_BUFFER_COUNT>, i: usize) -> (r: u64)
    requires
        i < staged_ids(*old(v)).len(),
    ensures
        r == staged_ids(*old(v))[i as int],
        staged_ids(*final(v)) == staged_ids(*old(v)).remove(i as int),
{
    v.remove(i)
}

/// Relies on `ArrayVec::as_slice`: the elements in order.
#[verifier::external_body]
pub(crate) fn ids_slice(v: &ArrayVec<u64, PRESENTATION_BUFFER_COUNT>) -> (r: &[u64])
    ensures
        r@ == staged_ids(*v),
{
    v.as_slice()
}

} // verus!
