//! Capture of interrupt timestamps for a radio driver.
//!
//! An [`IrqTimestamp`] tracker holds the last captured timestamp (in
//! microseconds, in the clock domain of an injected time source) and an
//! optional time source. The driver calls [`record_irq_timestamp`] each time it
//! reads the interrupt status; anyone may read the last value back with
//! [`last_irq_timestamp_us`].

mod atomic_cell;
pub mod laws;
pub mod tracker;

pub use tracker::{
    clear_irq_timestamp_fn, last_irq_timestamp_us, record_irq_timestamp, set_irq_timestamp_fn,
    IrqTimestamp, TimestampState,
};
