//! A thin 2d drawing layer for batches of simple shapes and point sprites,
//! built around a shader-based point/triangle rasterizer.
//!
//! The drawing pipeline accumulates vertices on the cpu side, uploads them
//! to a vertex buffer on the graphics device, sets shader uniform values,
//! and issues one draw call per batch.  This crate holds the bookkeeping
//! side of that pipeline, verified: the growable and static vertex-buffer
//! state, the upload planning (when the device allocation must grow and how
//! many vertices to copy), tile-set index arithmetic, shader-program
//! selection, the refresh timer, and the single-instance counter.  The
//! device calls themselves are issued by an unverified shell that consumes
//! the plans this crate produces.

use vstd::prelude::*;

pub mod circle_program;
pub mod sprite;
pub mod sprite_program;
pub mod textured_shape_program;
pub mod uniforms;
pub mod vbo;

verus! {

/// Relies on std::time::Instant, an opaque monotonic timestamp.
#[verifier::external_type_specification]
#[verifier::external_body]
pub struct ExInstant(std::time::Instant);

/// Relies on std::time::Instant::now for the current timestamp; nothing is
/// promised of the clock.
#[verifier::external_body]
fn instant_now() -> (t: std::time::Instant) {
    std::time::Instant::now()
}

/// Relies on std::time::Instant::elapsed for the time since the instant;
/// nothing is promised of the clock.
#[verifier::external_body]
fn instant_elapsed(t: &std::time::Instant) -> (d: core::time::Duration) {
    t.elapsed()
}

/// Relies on core::time::Duration::as_millis for the whole milliseconds of
/// the duration.
#[verifier::external_body]
fn duration_as_millis(d: core::time::Duration) -> (ms: u128) {
    d.as_millis()
}

/// Every live drawing system adds one to a shared instance count, and the
/// count must have been zero: two systems alive at once could issue device
/// calls simultaneously.  The caller checks the old count and panics before
/// calling when it is not zero.
pub fn assert_only_one_instance(instances: &mut usize)
    requires
        *old(instances) == 0,
    ensures
        *final(instances) == 1,
{
    *instances = *instances + 1;
}

/// A drawing system being dropped takes its one instance back out of the
/// shared count, which must therefore be exactly one.
pub fn decrement_one_instance(instances: &mut usize)
    requires
        *old(instances) == 1,
    ensures
        *final(instances) == 0,
{
    *instances = *instances - 1;
}

/// A timer to determine how often to refresh the screen.  It is built with
/// the desired refresh interval in milliseconds and polled with
/// `is_ready` to determine whether it is time to refresh.
pub struct RefreshTimer {
    interval: usize,
    last_time: std::time::Instant,
}

impl RefreshTimer {
    /// The refresh interval in milliseconds the timer was built with.
    pub closed spec fn spec_interval(&self) -> usize {
        self.interval
    }

    pub fn new(interval: usize) -> (t: RefreshTimer)
        ensures
            t.spec_interval() == interval,
    {
        RefreshTimer { interval, last_time: instant_now() }
    }

    /// Whether `elapsed_ms` milliseconds since the last refresh mean that a
    /// new refresh is due: exactly when the interval has fully passed.
    pub fn is_ready_after(&self, elapsed_ms: u128) -> (ready: bool)
        ensures
            ready == (elapsed_ms >= self.spec_interval() as u128),
    {
        elapsed_ms >= self.interval as u128
    }

    /// Polls the clock.  When the interval has passed since the last
    /// refresh, the timer restarts and reports ready; otherwise it is left
    /// exactly as it was.  Which of the two happens depends on the clock,
    /// so only `is_ready_after` pins the decision for a given elapsed time.
    pub fn is_ready(&mut self) -> (ready: bool)
        ensures
            final(self).spec_interval() == old(self).spec_interval(),
            !ready ==> *final(self) == *old(self),
    {
        let elapsed = duration_as_millis(instant_elapsed(&self.last_time));
        if self.is_ready_after(elapsed) {
            self.last_time = instant_now();
            true
        } else {
            false
        }
    }
}

} // verus!
