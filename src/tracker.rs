//! The timestamp tracker: the last captured timestamp and the time source
//! that captures it.
use crate::atomic_cell::{atomic_load, atomic_new, atomic_store, atomic_u64_value};
use portable_atomic::{AtomicU64, Ordering};
use vstd::prelude::*;

verus! {

/// What a tracker holds, as a plain value: the last stored timestamp in
/// microseconds and the installed time source, if any.
pub struct TimestampState<F> {
    pub last: u64,
    pub source: Option<F>,
}

impl<F> TimestampState<F> {
    /// A fresh tracker: nothing recorded, no time source.
    pub open spec fn initial() -> Self {
        TimestampState { last: 0, source: None }
    }

    /// The state after installing `f`: the stored value is kept.
    pub open spec fn with_source(self, f: F) -> Self {
        TimestampState { last: self.last, source: Some(f) }
    }

    /// The state after clearing the time source: the stored value is kept.
    pub open spec fn without_source(self) -> Self {
        TimestampState { last: self.last, source: None }
    }
}

impl<F: Fn() -> u64> TimestampState<F> {
    /// The installed time source, if any, may be called.
    pub open spec fn source_callable(self) -> bool {
        match self.source {
            Some(f) => f.requires(()),
            None => true,
        }
    }

    /// One recording may lead from `self` to `post`: with a time source, the
    /// stored value becomes a value that the source returns; without one,
    /// nothing changes. The time source itself stays.
    pub open spec fn record_step(self, post: Self) -> bool {
        &&& post.source == self.source
        &&& match self.source {
            Some(f) => f.ensures((), post.last),
            None => post.last == self.last,
        }
    }
}

/// Tracks the timestamp of the last interrupt-status read.
///
/// The stored value sits in an atomic cell, so a reader never sees a torn
/// value. Installing, clearing and recording take the tracker by exclusive
/// reference, so none of them can overlap another: a tracker shared between
/// an interrupt handler and ordinary code goes behind whatever lock the
/// platform offers.
pub struct IrqTimestamp<F> {
    last: AtomicU64,
    source: Option<F>,
}

impl<F> View for IrqTimestamp<F> {
    type V = TimestampState<F>;

    closed spec fn view(&self) -> TimestampState<F> {
        TimestampState { last: atomic_u64_value(self.last), source: self.source }
    }
}

impl<F: Fn() -> u64> IrqTimestamp<F> {
    /// A tracker with no time source whose last timestamp reads 0.
    pub fn new() -> (r: Self)
        ensures
            r@ == TimestampState::<F>::initial(),
    {
        IrqTimestamp { last: atomic_new(0), source: None }
    }
}

/// Installs `f` as the time source, replacing any earlier one. The stored
/// timestamp is left as it is.
pub fn set_irq_timestamp_fn<F: Fn() -> u64>(t: &mut IrqTimestamp<F>, f: F)
    ensures
        final(t)@ == old(t)@.with_source(f),
{
    t.source = Some(f);
}

/// Removes the time source: later recordings change nothing until a new one
/// is installed. The stored timestamp is left as it is.
pub fn clear_irq_timestamp_fn<F: Fn() -> u64>(t: &mut IrqTimestamp<F>)
    ensures
        final(t)@ == old(t)@.without_source(),
{
    t.source = None;
}

/// The last recorded timestamp in microseconds, or 0 if none was recorded.
pub fn last_irq_timestamp_us<F: Fn() -> u64>(t: &IrqTimestamp<F>) -> (r: u64)
    ensures
        r == t@.last,
{
    atomic_load(&t.last, Ordering::Relaxed)
}

/// Records the current time, to be called whenever the interrupt status is
/// read: with a time source installed, calls it once and stores its result;
/// without one, does nothing.
pub fn record_irq_timestamp<F: Fn() -> u64>(t: &mut IrqTimestamp<F>)
    requires
        old(t)@.source_callable(),
    ensures
        old(t)@.record_step(final(t)@),
{
    match &t.source {
        Some(f) => {
            let now = f();
            atomic_store(&mut t.last, now, Ordering::Relaxed);
        },
        None => {},
    }
}

} // verus!
