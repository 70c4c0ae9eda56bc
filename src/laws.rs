use crate::debounce::{generation_after, next_generation};
use crate::state::{spec_fresh, spec_latest, TaskState};
use crate::task::{poll_result, ChannelClosed, Job, Received, Task};
use vstd::prelude::*;

verus! {

/// A handle that has never fired shows `NotFired` at a poll, whatever the
/// receive finds, stays unfired, and neither reading of that state gives a
/// value.
pub proof fn lemma_unfired_shows_nothing<T>(t: Task<T>, post: Task<T>, o: Received<T>)
    requires
        !t.pending(),
        t.latest() is None,
        Task::polled(t, post, o),
    ensures
        poll_result(t.pending(), t.latest(), o) == Ok::<TaskState<T>, ChannelClosed>(
            TaskState::NotFired,
        ),
        !post.pending(),
        post.latest() is None,
        spec_latest(TaskState::<T>::NotFired) is None,
        spec_fresh(TaskState::<T>::NotFired) is None,
{
}

/// A poll right after a fire, before the job has sent, shows `Loading` with
/// the value completed before that fire: none after a first fire, the
/// previous result after a later one.
pub proof fn lemma_fire_then_poll_loads<T>(pre: Task<T>, armed: Task<T>, post: Task<T>)
    requires
        Task::fired(pre, armed),
        Task::polled(armed, post, Received::Empty),
    ensures
        poll_result(armed.pending(), armed.latest(), Received::Empty) == Ok::<
            TaskState<T>,
            ChannelClosed,
        >(TaskState::Loading(pre.latest())),
        post.pending(),
        post.latest() == pre.latest(),
{
}

/// Once the job's value `v` is received the poll shows `Ready(v)`, and the
/// next poll shows `Ready(v)` again, whatever it finds, with the handle in
/// the same state: so every poll does until the next fire.
pub proof fn lemma_resolved_stays_ready<T>(
    t0: Task<T>,
    t1: Task<T>,
    t2: Task<T>,
    v: T,
    o: Received<T>,
)
    requires
        t0.pending(),
        Task::polled(t0, t1, Received::Value(v)),
        Task::polled(t1, t2, o),
    ensures
        poll_result(t0.pending(), t0.latest(), Received::Value(v)) == Ok::<
            TaskState<T>,
            ChannelClosed,
        >(TaskState::Ready(v)),
        poll_result(t1.pending(), t1.latest(), o) == Ok::<TaskState<T>, ChannelClosed>(
            TaskState::Ready(v),
        ),
        t2.pending() == t1.pending(),
        t2.latest() == t1.latest(),
{
}

/// While a later fire loads, the same state read stale-tolerant gives the
/// previous value and read stale-intolerant gives none.
pub proof fn lemma_loading_readings<T>(pre: Task<T>, armed: Task<T>, post: Task<T>, p: T)
    requires
        pre.latest() == Some(p),
        Task::fired(pre, armed),
        Task::polled(armed, post, Received::Empty),
    ensures
        match poll_result(armed.pending(), armed.latest(), Received::Empty) {
            Ok(s) => spec_latest(s) == Some(p) && spec_fresh(s) is None,
            Err(_) => false,
        },
{
}

/// The counter after `n` more fires is `g + n` modulo the counter's range.
proof fn lemma_generation_after_mod(g: u16, n: nat)
    ensures
        generation_after(g, n) as int == (g + n) % 0x10000,
    decreases n,
{
    if n > 0 {
        lemma_generation_after_mod(g, (n - 1) as nat);
    }
}

/// After between one and 65535 newer fires the counter differs from the
/// generation that an earlier job captured, so that job is skipped.
pub proof fn lemma_newer_fire_makes_stale(captured: u16, later_fires: nat)
    requires
        1 <= later_fires < 0x10000,
    ensures
        generation_after(captured, later_fires) != captured,
{
    lemma_generation_after_mod(captured, later_fires);
}

/// On a debounced handle fired twice, the generation that the first fire
/// gave its job is no longer the handle's after the second fire.
pub proof fn lemma_second_fire_supersedes<T>(t0: Task<T>, t1: Task<T>, t2: Task<T>)
    requires
        t0.generation() is Some,
        Task::fired(t0, t1),
        Task::fired(t1, t2),
    ensures
        t1.generation() is Some,
        t2.generation() is Some,
        t2.generation() != t1.generation(),
{
    let g = t1.generation().unwrap();
    assert(t2.generation() == Some(next_generation(g)));
}

/// A job that ends without sending closes its channel: the poll reports
/// `ChannelClosed` once and forgets the channel, so the next poll shows the
/// last completed value, or `NotFired`, whatever it finds.
pub proof fn lemma_closed_channel_reported_once<T>(
    t0: Task<T>,
    t1: Task<T>,
    t2: Task<T>,
    o: Received<T>,
)
    requires
        t0.pending(),
        Task::polled(t0, t1, Received::Closed),
        Task::polled(t1, t2, o),
    ensures
        poll_result(t0.pending(), t0.latest(), Received::<T>::Closed) == Err::<
            TaskState<T>,
            ChannelClosed,
        >(ChannelClosed),
        !t1.pending(),
        t1.latest() == t0.latest(),
        poll_result(t1.pending(), t1.latest(), o) == Ok::<TaskState<T>, ChannelClosed>(
            match t0.latest() {
                Some(v) => TaskState::Ready(v),
                None => TaskState::NotFired,
            },
        ),
{
}

/// Debounce race: on a debounced handle fired twice, the job of the first
/// fire reads the counter after its delay as at least the second fire left
/// it, and so skips its payload, while the job of the second fire, reading
/// the same counter, runs its payload.
pub proof fn lemma_superseded_job_skips<T>(
    t0: Task<T>,
    t1: Task<T>,
    first: Job<T>,
    t2: Task<T>,
    second: Job<T>,
)
    requires
        t0.generation() is Some,
        Task::fired(t0, t1),
        Task::made_by_last_fire(t1, first),
        Task::fired(t1, t2),
        Task::made_by_last_fire(t2, second),
    ensures
        !first.admits(t2.generation()),
        second.admits(t2.generation()),
{
    let g = t1.generation().unwrap();
    assert(t2.generation() == Some(next_generation(g)));
}

/// Without debounce every job runs its payload, whatever it reads.
pub proof fn lemma_undebounced_job_runs<T>(t: Task<T>, job: Job<T>, reading: Option<u16>)
    requires
        t.generation() is None,
        Task::made_by_last_fire(t, job),
    ensures
        job.admits(reading),
{
}

/// After a second fire the handle's fire count is the second job's fire
/// number, never the first's, and polls keep it so. (That the receiver held
/// then is the one connected to the second job's sender rests on tokio's
/// channel, which no contract here states.)
pub proof fn lemma_only_latest_channel_held<T>(
    t0: Task<T>,
    t1: Task<T>,
    first: Job<T>,
    t2: Task<T>,
    second: Job<T>,
    t3: Task<T>,
    o: Received<T>,
)
    requires
        Task::fired(t0, t1),
        Task::made_by_last_fire(t1, first),
        Task::fired(t1, t2),
        Task::made_by_last_fire(t2, second),
        Task::polled(t2, t3, o),
    ensures
        first.fire_number() != t2.fire_count(),
        second.fire_number() == t3.fire_count(),
        first.fire_number() != t3.fire_count(),
{
}

/// The stale-tolerant reading of a handle never loses a value: once one was
/// received, a later poll leaves a value, whatever it finds.
pub proof fn lemma_latest_kept_by_polls<T>(t0: Task<T>, t1: Task<T>, v: T, o: Received<T>)
    requires
        t0.latest() == Some(v),
        Task::polled(t0, t1, o),
    ensures
        t1.latest() is Some,
        (o is Empty || o is Closed || !t0.pending()) ==> t1.latest() == Some(v),
{
}

} // verus!
