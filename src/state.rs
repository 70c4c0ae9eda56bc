use vstd::prelude::*;

verus! {

/// What a task handle shows to its owner at one poll.
pub enum TaskState<T> {
    /// Nothing has been fired yet.
    NotFired,
    /// Work is in flight; carries the last completed value, if any, so that it
    /// can be shown while the new one loads.
    Loading(Option<T>),
    /// The most recent fire finished with this value.
    Ready(T),
}

/// The stale-tolerant reading of a state: the newest value known.
pub open spec fn spec_latest<T>(s: TaskState<T>) -> Option<T> {
    match s {
        TaskState::NotFired => None,
        TaskState::Loading(prev) => prev,
        TaskState::Ready(v) => Some(v),
    }
}

/// The stale-intolerant reading of a state: a value only once work has finished.
pub open spec fn spec_fresh<T>(s: TaskState<T>) -> Option<T> {
    match s {
        TaskState::Ready(v) => Some(v),
        _ => None,
    }
}

impl<T> TaskState<T> {
    /// The newest value known, also while new work is loading.
    pub fn get(self) -> (r: Option<T>)
        ensures
            r == spec_latest(self),
    {
        match self {
            TaskState::NotFired => None,
            TaskState::Loading(t) => t,
            TaskState::Ready(t) => Some(t),
        }
    }

    /// The value of finished work only; `None` while new work is loading.
    pub fn get_no_stale(self) -> (r: Option<T>)
        ensures
            r == spec_fresh(self),
    {
        match self {
            TaskState::NotFired => None,
            TaskState::Loading(_) => None,
            TaskState::Ready(t) => Some(t),
        }
    }
}

} // verus!
