use crate::debounce::{next_generation, Debounce, Ticket};
use crate::state::{spec_fresh, TaskState};
use std::time::Duration;
use tokio::sync::oneshot::error::{RecvError, TryRecvError};
use tokio::sync::oneshot::{Receiver, Sender};
use vstd::prelude::*;

verus! {

#[verifier::external_type_specification]
#[verifier::external_body]
#[verifier::reject_recursive_types(T)]
pub struct ExReceiver<T>(Receiver<T>);

#[verifier::external_type_specification]
#[verifier::external_body]
#[verifier::reject_recursive_types(T)]
pub struct ExSender<T>(Sender<T>);

/// Declared because `Receiver`'s `Future` impl names it; nothing here uses it.
#[verifier::external_type_specification]
#[verifier::external_body]
pub struct ExRecvError(RecvError);

/// Relies on tokio's `oneshot::channel`: a fresh connected sender and receiver.
pub assume_specification<T>[ tokio::sync::oneshot::channel::<T> ]() -> (Sender<T>, Receiver<T>);

/// Relies on tokio's `oneshot::Sender::send`: hands the value over, or back
/// when the receiver is gone.
pub assume_specification<T>[ Sender::<T>::send ](s: Sender<T>, t: T) -> (r: Result<(), T>)
    ensures
        r is Err ==> r->Err_0 == t,
;

/// The background job behind a fire closed its channel without sending.
#[derive(Debug, Clone, Copy, PartialEq, Eq)]
pub struct ChannelClosed;

/// What one non-blocking receive on a result channel found.
pub enum Received<T> {
    /// The job's result.
    Value(T),
    /// Nothing has been sent yet.
    Empty,
    /// The sending side is gone and nothing will come.
    Closed,
}

/// Relies on tokio's `oneshot::Receiver::try_recv`: a pending value, or that
/// none was sent yet, or that the sender dropped without sending. Which one
/// depends on the background job's progress, so nothing is stated of it.
#[verifier::external_body]
fn try_receive<T>(rx: &mut Receiver<T>) -> (r: Received<T>) {
    match rx.try_recv() {
        Ok(v) => Received::Value(v),
        Err(TryRecvError::Empty) => Received::Empty,
        Err(TryRecvError::Closed) => Received::Closed,
    }
}

/// The state that an owner sees when a channel is (`pending`) or is not
/// outstanding and `latest` is the last completed value.
pub open spec fn observed<T>(pending: bool, latest: Option<T>) -> TaskState<T> {
    if pending {
        TaskState::Loading(latest)
    } else {
        match latest {
            Some(v) => TaskState::Ready(v),
            None => TaskState::NotFired,
        }
    }
}

/// Whether a channel is still outstanding after a receive found `outcome`:
/// only where it found nothing yet. A value or a closed channel resolves it.
pub open spec fn pending_after<T>(pending: bool, outcome: Received<T>) -> bool {
    pending && outcome is Empty
}

/// The last completed value after a receive found `outcome`.
pub open spec fn latest_after<T>(pending: bool, latest: Option<T>, outcome: Received<T>) -> Option<T> {
    match outcome {
        Received::Value(v) => if pending {
            Some(v)
        } else {
            latest
        },
        _ => latest,
    }
}

/// What a poll reports after a receive found `outcome`.
pub open spec fn poll_result<T>(pending: bool, latest: Option<T>, outcome: Received<T>) -> Result<
    TaskState<T>,
    ChannelClosed,
> {
    if pending && outcome is Closed {
        Err(ChannelClosed)
    } else {
        Ok(
            observed(
                pending_after(pending, outcome),
                latest_after(pending, latest, outcome),
            ),
        )
    }
}

/// A state of borrowed values read as a state of values.
pub open spec fn deref_state<T>(s: TaskState<&T>) -> TaskState<T> {
    match s {
        TaskState::NotFired => TaskState::NotFired,
        TaskState::Loading(None) => TaskState::Loading(None),
        TaskState::Loading(Some(v)) => TaskState::Loading(Some(*v)),
        TaskState::Ready(v) => TaskState::Ready(*v),
    }
}

/// A poll result of borrowed values read as one of values.
pub open spec fn deref_result<T>(r: Result<TaskState<&T>, ChannelClosed>) -> Result<
    TaskState<T>,
    ChannelClosed,
> {
    match r {
        Ok(s) => Ok(deref_state(s)),
        Err(e) => Err(e),
    }
}

/// A borrowed optional value read as a value.
pub open spec fn deref_option<T>(o: Option<&T>) -> Option<T> {
    match o {
        Some(v) => Some(*v),
        None => None,
    }
}

/// A handle through which a thread that must never block delegates long work
/// to a background pool and then observes its outcome by polling.
#[verifier::reject_recursive_types(T)]
pub struct Task<T> {
    recv: Option<Receiver<T>>,
    value: Option<T>,
    debounce: Option<Debounce>,
    /// How many fires the handle has seen.
    fires: Ghost<nat>,
}

/// A spawned job: the debounce ticket it must pass, where its result goes,
/// and which fire of its handle made it.
#[verifier::reject_recursive_types(T)]
pub struct Job<T> {
    ticket: Option<Ticket>,
    sender: Sender<T>,
    fire: Ghost<nat>,
}

impl<T> Job<T> {
    /// The number of the fire that made this job. `prepare` tags the job
    /// and the handle's count together, when it opens the channel; that the
    /// sender and the receiver it opened are connected is tokio's part, and
    /// no contract here states it.
    pub closed spec fn fire_number(&self) -> nat {
        self.fire@
    }

    /// The generation that the job captured at its fire, where debouncing is on.
    pub closed spec fn captured(&self) -> Option<u16> {
        match self.ticket {
            Some(t) => Some(t.captured()),
            None => None,
        }
    }

    /// The delay that the job waits before its staleness check, where
    /// debouncing is on.
    pub closed spec fn delay(&self) -> Option<Duration> {
        match self.ticket {
            Some(t) => Some(t.delay()),
            None => None,
        }
    }

    /// Whether the job runs its payload when the counter read after its delay
    /// is `reading`: always without debounce, else only if no newer fire
    /// changed the counter.
    pub open spec fn admits(&self, reading: Option<u16>) -> bool {
        match self.captured() {
            None => true,
            Some(c) => reading == Some(c),
        }
    }

    /// Wait out the delay, if any, and read the shared counter.
    fn read_after_delay(&self) -> (reading: Option<u16>)
        ensures
            reading is None <==> self.captured() is None,
    {
        match &self.ticket {
            None => None,
            Some(t) => Some(t.generation_after_delay()),
        }
    }

    /// Whether the job runs its payload, given the counter read after its delay.
    fn may_run(&self, reading: Option<u16>) -> (r: bool)
        ensures
            r == self.admits(reading),
    {
        match &self.ticket {
            None => true,
            Some(t) => match reading {
                Some(g) => t.is_current_reading(g),
                None => false,
            },
        }
    }

    /// The payload's value where the counter read after the delay shows the
    /// job still current, running `func` exactly once; else `None`, with
    /// `func` dropped unrun.
    pub fn payload_if_current<F: FnOnce() -> T>(&self, reading: Option<u16>, func: F) -> (r: Option<T>)
        requires
            call_requires(func, ()),
        ensures
            r is Some == self.admits(reading),
            r matches Some(v) ==> call_ensures(func, (), v),
    {
        if self.may_run(reading) {
            Some(func())
        } else {
            None
        }
    }

    /// The future to drive where the counter read after the delay shows the
    /// job still current; else `None`, with the future dropped unpolled.
    pub fn future_if_current<F: core::future::Future<Output = T>>(
        &self,
        reading: Option<u16>,
        future: F,
    ) -> (r: Option<F>)
        ensures
            r is Some == self.admits(reading),
            r matches Some(f) ==> f == future,
    {
        if self.may_run(reading) {
            Some(future)
        } else {
            None
        }
    }

    /// Finish the job once the counter after its delay read `reading`: send
    /// the value of `payload_if_current`, if any. Returns whether `func` ran.
    pub fn finish_blocking<F: FnOnce() -> T>(self, reading: Option<u16>, func: F) -> (ran: bool)
        requires
            call_requires(func, ()),
        ensures
            ran == self.admits(reading),
            ran ==> exists|v: T| call_ensures(func, (), v),
    {
        match self.payload_if_current(reading, func) {
            Some(v) => {
                let _ = self.sender.send(v);
                true
            },
            None => false,
        }
    }

    /// Finish the job on a blocking-pool thread: drive the future of
    /// `future_if_current`, if any, and send its output. Returns whether the
    /// output was sent.
    fn finish_suspending<F: core::future::Future<Output = T>>(
        self,
        pool: &PoolThread,
        reading: Option<u16>,
        future: F,
    ) -> (sent: bool)
        ensures
            sent ==> self.admits(reading),
    {
        match self.future_if_current(reading, future) {
            Some(f) => match drive_to_output(pool, f) {
                Some(v) => {
                    let _ = self.sender.send(v);
                    true
                },
                None => false,
            },
            None => false,
        }
    }

    /// The whole job of a blocking payload: wait out the delay, check
    /// staleness, then run the payload and send its value if still current.
    pub(crate) fn run_blocking<F: FnOnce() -> T>(self, func: F) -> (ran: bool)
        requires
            call_requires(func, ()),
        ensures
            self.captured() is None ==> ran,
            ran ==> exists|v: T| call_ensures(func, (), v),
    {
        let reading = self.read_after_delay();
        self.finish_blocking(reading, func)
    }

    /// The whole job of a suspending payload on a blocking-pool thread.
    fn run_suspending<F: core::future::Future<Output = T>>(self, pool: &PoolThread, future: F) -> (sent: bool)
    {
        let reading = self.read_after_delay();
        self.finish_suspending(pool, reading, future)
    }
}

/// Held only by work that `spawn_detached` runs, so only on a thread of a
/// runtime's blocking pool: such a thread is in no asynchronous context.
pub struct PoolThread {
    sealed: (),
}

/// Relies on tokio's `runtime::Builder` (`new_current_thread`, `enable_all`,
/// `build`) and `Runtime::block_on`: drives `future` to its output on a
/// runtime of its own with I/O and timers, or gives `None` where that runtime
/// cannot be built. `block_on` panics only inside an asynchronous context,
/// which a `PoolThread` rules out.
#[verifier::external_body]
fn drive_to_output<T, F: core::future::Future<Output = T>>(pool: &PoolThread, future: F) -> Option<T> {
    match tokio::runtime::Builder::new_current_thread().enable_all().build() {
        Ok(rt) => Some(rt.block_on(future)),
        Err(_) => None,
    }
}

/// Relies on tokio's `Handle::try_current` and `Handle::spawn_blocking`: runs
/// `work` on the current runtime's blocking pool, detached. Outside a runtime
/// `work` is dropped unrun instead.
#[verifier::external_body]
fn spawn_detached<F: FnOnce(PoolThread) + Send + 'static>(work: F)
    requires
        forall|p: PoolThread| call_requires(work, (p,)),
{
    if let Ok(handle) = tokio::runtime::Handle::try_current() {
        let _ = handle.spawn_blocking(move || work(PoolThread { sealed: () }));
    }
}

impl<T> Task<T> {
    /// Whether a fire is outstanding and its channel not yet resolved.
    pub closed spec fn pending(&self) -> bool {
        self.recv is Some
    }

    /// The last value that a channel yielded.
    pub closed spec fn latest(&self) -> Option<T> {
        self.value
    }

    /// The debounce generation, where debouncing is on.
    pub closed spec fn generation(&self) -> Option<u16> {
        match self.debounce {
            Some(d) => Some(d.generation()),
            None => None,
        }
    }

    /// The debounce delay, where debouncing is on.
    pub closed spec fn delay(&self) -> Option<Duration> {
        match self.debounce {
            Some(d) => Some(d.delay()),
            None => None,
        }
    }

    /// How many fires the handle has seen. `prepare` sets the receiver it
    /// holds and advances this count in the same step.
    pub closed spec fn fire_count(&self) -> nat {
        self.fires@
    }

    /// `job` carries the fire number of `t`'s last fire, and it captured
    /// `t`'s generation and delay.
    pub open spec fn made_by_last_fire(t: Task<T>, job: Job<T>) -> bool {
        &&& job.fire_number() == t.fire_count()
        &&& job.captured() == t.generation()
        &&& job.delay() == t.delay()
    }

    /// `post` is `pre` after a poll whose receive found `outcome`.
    pub open spec fn polled(pre: Task<T>, post: Task<T>, outcome: Received<T>) -> bool {
        &&& post.pending() == pending_after(pre.pending(), outcome)
        &&& post.latest() == latest_after(pre.pending(), pre.latest(), outcome)
        &&& post.generation() == pre.generation()
        &&& post.delay() == pre.delay()
        &&& post.fire_count() == pre.fire_count()
    }

    /// `post` is `pre` after one more fire.
    pub open spec fn fired(pre: Task<T>, post: Task<T>) -> bool {
        &&& post.pending()
        &&& post.fire_count() == pre.fire_count() + 1
        &&& post.latest() == pre.latest()
        &&& post.delay() == pre.delay()
        &&& post.generation() == match pre.generation() {
            Some(g) => Some(next_generation(g)),
            None => None,
        }
    }

    /// A handle that has never fired.
    pub fn new() -> (t: Self)
        ensures
            !t.pending(),
            t.latest() is None,
            t.generation() is None,
            t.delay() is None,
            t.fire_count() == 0,
    {
        Task { recv: None, value: None, debounce: None, fires: Ghost(0) }
    }

    /// The same handle, with each fire from now on waiting `duration` before
    /// it runs and skipping its work if a newer fire came meanwhile.
    pub fn with_debounce(self, duration: Duration) -> (t: Self)
        ensures
            t.pending() == self.pending(),
            t.latest() == self.latest(),
            t.generation() == Some(0u16),
            t.delay() == Some(duration),
            t.fire_count() == self.fire_count(),
    {
        Task {
            recv: self.recv,
            value: self.value,
            debounce: Some(Debounce::new(duration)),
            fires: self.fires,
        }
    }

    /// Take in what a receive on the outstanding channel found: a value
    /// becomes the last value and resolves the channel, nothing yet changes
    /// nothing, and a closed channel is reported once and forgotten. Without an outstanding
    /// channel the outcome is ignored.
    pub fn settle(&mut self, outcome: Received<T>) -> (r: Result<(), ChannelClosed>)
        ensures
            Self::polled(*old(self), *final(self), outcome),
            r == (if old(self).pending() && outcome is Closed {
                Err(ChannelClosed)
            } else {
                Ok(())
            }),
    {
        if self.recv.is_none() {
            return Ok(());
        }
        match outcome {
            Received::Value(v) => {
                self.value = Some(v);
                self.recv = None;
                Ok(())
            },
            Received::Empty => Ok(()),
            Received::Closed => {
                self.recv = None;
                Err(ChannelClosed)
            },
        }
    }

    /// The state as it stands, without receiving.
    pub fn peek(&self) -> (r: TaskState<&T>)
        ensures
            deref_state(r) == observed(self.pending(), self.latest()),
    {
        if self.recv.is_some() {
            TaskState::Loading(self.value.as_ref())
        } else {
            match &self.value {
                Some(v) => TaskState::Ready(v),
                None => TaskState::NotFired,
            }
        }
    }

    /// One non-blocking receive on the outstanding channel, if any, taken in.
    fn poll(&mut self) -> (r: Result<(), ChannelClosed>)
        ensures
            exists|o: Received<T>|
                #[trigger] Self::polled(*old(self), *final(self), o) && r == (if old(
                    self,
                ).pending() && o is Closed {
                    Err(ChannelClosed)
                } else {
                    Ok(())
                }),
    {
        let outcome = match self.recv.take() {
            Some(mut rx) => {
                let o = try_receive(&mut rx);
                self.recv = Some(rx);
                o
            },
            None => Received::Empty,
        };
        let ghost o = outcome;
        let r = self.settle(outcome);
        assert(Self::polled(*old(self), *self, o));
        r
    }

    /// Poll without blocking: receive once on the outstanding channel, if
    /// any, and report the state, or that the background job closed its
    /// channel without a value.
    pub fn try_state(&mut self) -> (r: Result<TaskState<&T>, ChannelClosed>)
        ensures
            exists|o: Received<T>|
                #[trigger] Self::polled(*old(self), *final(self), o) && deref_result(r)
                    == poll_result(old(self).pending(), old(self).latest(), o),
    {
        match self.poll() {
            Ok(()) => Ok(self.peek()),
            Err(e) => Err(e),
        }
    }

    /// Poll, then give the last value, also while new work is loading.
    pub fn get(&mut self) -> (r: Option<&T>)
        ensures
            exists|o: Received<T>| #[trigger] Self::polled(*old(self), *final(self), o),
            deref_option(r) == final(self).latest(),
    {
        let _ = self.poll();
        self.value.as_ref()
    }

    /// Poll, then give a value only where the newest fire has finished.
    pub fn get_fresh(&mut self) -> (r: Option<&T>)
        ensures
            exists|o: Received<T>|
                #[trigger] Self::polled(*old(self), *final(self), o) && deref_option(r) == match poll_result(
                    old(self).pending(),
                    old(self).latest(),
                    o,
                ) {
                    Ok(s) => spec_fresh(s),
                    Err(_) => None,
                },
    {
        match self.try_state() {
            Ok(s) => s.get_no_stale(),
            Err(_) => None,
        }
    }

    /// Start a new fire: open a fresh channel, hold its receiver in place of
    /// any older one (whose job's result is then lost), count the fire on the
    /// debounce controller, and return the job that holds the sender.
    pub fn prepare(&mut self) -> (job: Job<T>)
        ensures
            Self::fired(*old(self), *final(self)),
            Self::made_by_last_fire(*final(self), job),
    {
        let (sender, recv) = tokio::sync::oneshot::channel();
        self.recv = Some(recv);
        self.fires = Ghost(self.fires@ + 1);
        let ticket = match self.debounce.take() {
            None => None,
            Some(mut d) => {
                let t = d.advance();
                self.debounce = Some(d);
                Some(t)
            },
        };
        Job { ticket, sender, fire: Ghost(self.fires@) }
    }
}

impl<T> Default for Task<T> {
    /// A handle that has never fired.
    fn default() -> (t: Self)
        ensures
            !t.pending(),
            t.latest() is None,
            t.generation() is None,
            t.delay() is None,
            t.fire_count() == 0,
    {
        Task::new()
    }
}

impl<T: Send + 'static> Task<T> {
    /// Run `func` on the blocking pool; its result arrives on a later poll.
    /// The job waits out the debounce delay, if any, and runs `func` only if
    /// no newer fire came meanwhile. A channel of an earlier fire is dropped,
    /// and that fire's result lost. Outside a Tokio runtime the job is dropped
    /// unrun, and the next poll reports the closed channel.
    pub fn fire<F>(&mut self, func: F) where F: FnOnce() -> T + Send + 'static
        requires
            call_requires(func, ()),
        ensures
            Self::fired(*old(self), *final(self)),
            exists|job: Job<T>| #[trigger] Self::made_by_last_fire(*final(self), job),
    {
        let job = self.prepare();
        let ghost spawned = job;
        let work = move |_pool: PoolThread|
            requires
                call_requires(func, ()),
            {
                let _ = job.run_blocking(func);
            };
        spawn_detached(work);
        assert(Self::made_by_last_fire(*self, spawned));
    }

    /// Drive `future` to its output in the background; its result arrives on
    /// a later poll. The job waits on the blocking pool and drives the future
    /// there on a runtime of its own. Debouncing, the dropped earlier channel
    /// and the case without a runtime are as for `fire`.
    pub fn fire_async<F>(&mut self, future: F) where
        F: core::future::Future<Output = T> + Send + 'static,

        ensures
            Self::fired(*old(self), *final(self)),
            exists|job: Job<T>| #[trigger] Self::made_by_last_fire(*final(self), job),
    {
        let job = self.prepare();
        let ghost spawned = job;
        let work = move |pool: PoolThread|
            {
                let _ = job.run_suspending(&pool, future);
            };
        spawn_detached(work);
        assert(Self::made_by_last_fire(*self, spawned));
    }
}

} // verus!
