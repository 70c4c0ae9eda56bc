use std::sync::atomic::{AtomicU16, Ordering};
use std::sync::Arc;
use std::time::Duration;
use vstd::prelude::*;

verus! {

/// The generation that follows `g` on a 16-bit counter that wraps around.
pub open spec fn next_generation(g: u16) -> u16 {
    if g == u16::MAX {
        0
    } else {
        (g + 1) as u16
    }
}

/// The generation reached from `g` after `n` further fires.
pub open spec fn generation_after(g: u16, n: nat) -> u16
    decreases n,
{
    if n == 0 {
        g
    } else {
        next_generation(generation_after(g, (n - 1) as nat))
    }
}

/// Whether a job that captured generation `captured` at its fire is still the
/// newest one, when the shared counter now reads `current`.
pub fn is_current(captured: u16, current: u16) -> (r: bool)
    ensures
        r == (captured == current),
{
    captured == current
}

/// Relies on `std::sync::mpsc::channel` and `Receiver::recv_timeout`: a wait
/// on a channel whose sender is kept alive returns once `delay` has passed.
/// Needs no runtime and does not panic.
#[verifier::external_body]
fn pause(delay: Duration) {
    let (_keep, wait) = std::sync::mpsc::channel::<()>();
    let _ = wait.recv_timeout(delay);
}

/// The owner's side of a debounce controller: the generation of the newest
/// fire and the delay that each job waits before it checks for staleness.
/// The owner is the counter's only writer; every job it spawns shares the
/// published copy of the counter and only reads it.
pub struct Debounce {
    generation: u16,
    delay: Duration,
    shared: Arc<AtomicU16>,
}

/// What one job carries of the controller: the generation that its fire
/// produced, the delay and the shared counter.
pub struct Ticket {
    captured: u16,
    delay: Duration,
    shared: Arc<AtomicU16>,
}

impl Debounce {
    pub closed spec fn generation(&self) -> u16 {
        self.generation
    }

    pub closed spec fn delay(&self) -> Duration {
        self.delay
    }

    /// A controller with generation zero.
    pub fn new(delay: Duration) -> (d: Self)
        ensures
            d.generation() == 0,
            d.delay() == delay,
    {
        Debounce { generation: 0, delay, shared: Arc::new(AtomicU16::new(0)) }
    }

    /// Count a new fire: advance and publish the generation, and return the
    /// ticket that the new job carries.
    pub fn advance(&mut self) -> (t: Ticket)
        ensures
            final(self).generation() == next_generation(old(self).generation()),
            final(self).delay() == old(self).delay(),
            t.captured() == final(self).generation(),
            t.delay() == old(self).delay(),
    {
        let next = self.generation.wrapping_add(1);
        self.generation = next;
        self.shared.store(next, Ordering::SeqCst);
        Ticket { captured: next, delay: self.delay, shared: self.shared.clone() }
    }
}

impl Ticket {
    pub closed spec fn captured(&self) -> u16 {
        self.captured
    }

    pub closed spec fn delay(&self) -> Duration {
        self.delay
    }

    /// Whether a reading of the shared counter shows no fire newer than
    /// this ticket's.
    pub fn is_current_reading(&self, reading: u16) -> (r: bool)
        ensures
            r == (reading == self.captured()),
    {
        is_current(self.captured, reading)
    }

    /// Block the calling thread for the delay, then read the shared counter.
    pub(crate) fn generation_after_delay(&self) -> u16 {
        pause(self.delay);
        self.shared.load(Ordering::SeqCst)
    }
}

} // verus!
