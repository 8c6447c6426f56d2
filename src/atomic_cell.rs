//! The atomic 64-bit cell that holds the last timestamp, from `portable_atomic`.
use portable_atomic::{AtomicU64, Ordering};
use vstd::prelude::*;

verus! {

#[verifier::external_type_specification]
#[verifier::external_body]
pub struct ExAtomicU64(portable_atomic::AtomicU64);

/// The integer held by an atomic cell. In this crate a cell is changed only
/// through an exclusive reference, by `atomic_store`.
pub uninterp spec fn atomic_u64_value(a: portable_atomic::AtomicU64) -> u64;

/// Relies on `portable_atomic::AtomicU64::new`: the new cell holds `v`.
#[verifier::external_body]
pub(crate) fn atomic_new(v: u64) -> (r: AtomicU64)
    ensures
        atomic_u64_value(r) == v,
{
    AtomicU64::new(v)
}

/// Relies on `portable_atomic::AtomicU64::load`: it returns the held integer,
/// and panics only for a `Release` or `AcqRel` ordering.
#[verifier::external_body]
pub(crate) fn atomic_load(a: &AtomicU64, order: Ordering) -> (r: u64)
    requires
        !(order is Release),
        !(order is AcqRel),
    ensures
        r == atomic_u64_value(*a),
{
    a.load(order)
}

/// Relies on `portable_atomic::AtomicU64::store`: afterwards the cell holds
/// `v`, and it panics only for an `Acquire` or `AcqRel` ordering. The cell is
/// borrowed exclusively, so no other access comes between.
#[verifier::external_body]
pub(crate) fn atomic_store(a: &mut AtomicU64, v: u64, order: Ordering)
    requires
        !(order is Acquire),
        !(order is AcqRel),
    ensures
        atomic_u64_value(*final(a)) == v,
{
    a.store(v, order)
}

} // verus!
