//! The allocation and reference-counting collaborator.
//!
//! Every handle in this crate is backed by one heap-allocated control block:
//! a `std::sync::Arc` allocation holding the value in a `std::cell::Cell`,
//! together with the allocation's two atomic reference counts. This module is
//! the only place that touches that allocation. Everything above it works
//! with the opaque reference types [`StrongRef`] and [`WeakRef`] and with the
//! plain address of the block.
//!
//! Trust base: each function relies on the documented behaviour of the one
//! standard-library operation named in its doc comment. Every function that
//! returns a reference returns one into the same allocation as its argument,
//! so an address stored beside a reference (as the handle types do) remains
//! the address of the allocation that the reference keeps alive.

use vstd::prelude::*;

verus! {

/// An owning reference into a control block: while it lives, the block's
/// strong count stays positive and the value stays alive.
#[verifier::external_body]
#[verifier::reject_recursive_types(T)]
pub(crate) struct StrongRef<T> {
    rc: std::sync::Arc<std::cell::Cell<T>>,
}

/// A non-owning reference into a control block: while it lives, the block's
/// allocation (though not necessarily the value) stays alive. It may also be
/// dangling, referencing no allocation at all.
#[verifier::external_body]
#[verifier::reject_recursive_types(T)]
pub(crate) struct WeakRef<T> {
    wk: std::sync::Weak<std::cell::Cell<T>>,
}

/// Relies on `std::sync::Arc::new`: allocates a fresh control block holding
/// `value`, with a strong count of 1 and a weak count of 0.
#[verifier::external_body]
pub(crate) fn allocate<T>(value: T) -> StrongRef<T> {
    StrongRef { rc: std::sync::Arc::new(std::cell::Cell::new(value)) }
}

/// Relies on `std::sync::Arc::as_ptr`: the address of the allocation behind
/// `r`, stable for as long as any reference keeps that allocation alive.
#[verifier::external_body]
pub(crate) fn address<T>(r: &StrongRef<T>) -> usize {
    std::sync::Arc::as_ptr(&r.rc) as usize
}

/// Relies on `std::sync::Arc::clone`: a second owning reference into the same
/// allocation; increments its strong count by one.
#[verifier::external_body]
pub(crate) fn clone_strong<T>(r: &StrongRef<T>) -> StrongRef<T> {
    StrongRef { rc: std::sync::Arc::clone(&r.rc) }
}

/// Relies on `std::sync::Arc::downgrade`: a non-owning reference into the
/// same allocation; increments its weak count by one.
#[verifier::external_body]
pub(crate) fn downgrade<T>(r: &StrongRef<T>) -> WeakRef<T> {
    WeakRef { wk: std::sync::Arc::downgrade(&r.rc) }
}

/// Relies on `std::sync::Arc::strong_count`: a snapshot of the strong count.
/// It is at least 1, since `r` itself owns one strong unit for the whole
/// call.
#[verifier::external_body]
pub(crate) fn strong_count_of<T>(r: &StrongRef<T>) -> (n: usize)
    ensures
        n >= 1,
{
    std::sync::Arc::strong_count(&r.rc)
}

/// Relies on `std::sync::Arc::weak_count`: a snapshot of the weak count.
#[verifier::external_body]
pub(crate) fn weak_count_of<T>(r: &StrongRef<T>) -> usize {
    std::sync::Arc::weak_count(&r.rc)
}

/// Relies on `std::cell::Cell::set`: overwrites the value in the block. The
/// write is visible through every reference into the same allocation.
#[verifier::external_body]
pub(crate) fn store<T>(r: &StrongRef<T>, value: T) {
    r.rc.set(value);
}

/// Relies on `std::cell::Cell::get`: a copy of the value currently in the
/// block.
#[verifier::external_body]
pub(crate) fn load<T: Copy>(r: &StrongRef<T>) -> T {
    r.rc.get()
}

/// Relies on `std::sync::Weak::new`: a dangling reference. No allocation is
/// performed, and upgrading the result always fails.
#[verifier::external_body]
pub(crate) fn dangling<T>() -> WeakRef<T> {
    WeakRef { wk: std::sync::Weak::new() }
}

/// Relies on `std::sync::Weak::clone`: a second reference to the same
/// allocation; increments its weak count by one. A dangling reference stays
/// dangling, and no count changes.
#[verifier::external_body]
pub(crate) fn clone_weak<T>(r: &WeakRef<T>) -> WeakRef<T> {
    WeakRef { wk: r.wk.clone() }
}

/// Relies on `std::sync::Weak::upgrade`: when the strong count of the block
/// behind `r` is positive, atomically increments it and returns an owning
/// reference into the same allocation; otherwise — the value is already
/// gone, or `r` is dangling — returns nothing.
#[verifier::external_body]
pub(crate) fn upgrade<T>(r: &WeakRef<T>) -> Option<StrongRef<T>> {
    match r.wk.upgrade() {
        None => None,
        Some(rc) => Some(StrongRef { rc }),
    }
}

/// Relies on `std::sync::Weak::strong_count`: a snapshot of the strong count
/// of the block behind `r`.
#[verifier::external_body]
pub(crate) fn strong_count_behind<T>(r: &WeakRef<T>) -> usize {
    r.wk.strong_count()
}

/// Relies on `std::sync::Weak::weak_count`: a snapshot of the weak count of
/// the block behind `r`; 0 once no strong references remain.
#[verifier::external_body]
pub(crate) fn weak_count_behind<T>(r: &WeakRef<T>) -> usize {
    r.wk.weak_count()
}

} // verus!
