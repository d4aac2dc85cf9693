use vstd::prelude::*;
use crate::cache::SampleCache;
use crate::path::{fallback_of, fallback_path};

verus! {

/// How long the worker waits for a request before it retires, in milliseconds.
pub const IDLE_TIMEOUT_MS: u64 = 20000;

/// How long a retiring worker sleeps before it lets go of the output stream,
/// in milliseconds.
pub const DRAIN_SLEEP_MS: u64 = 100;

/// Where the playback worker stands.
#[derive(Debug, Clone, PartialEq, Eq)]
pub enum WorkerState {
    /// Acquiring the default output stream.
    Starting,
    /// Blocked on the request channel.
    Waiting,
    /// Opening the file for `key`: the requested path, or its fallback sibling.
    Opening { key: String, fallback: bool },
    /// Decoding the file opened for `key`.
    Decoding { key: String },
    /// Starting a detached playback of the buffer cached under `key`.
    Playing { key: String },
    /// Idle timeout passed: a short grace sleep before exiting.
    Draining,
    /// Retired after the idle timeout; the output stream is released.
    Finished,
    /// Stopped on a fatal error.
    Failed,
}

/// What the outside world reports back to the worker.
#[derive(Debug)]
pub enum WorkerEvent<B> {
    StreamOpened,
    StreamFailed,
    Received(String),
    TimedOut,
    FileOpened,
    OpenFailed,
    Decoded(B),
    DecodeFailed,
    SinkStarted,
    SinkFailed,
    Slept,
}

/// What the worker asks the outside world to do next.
#[derive(Debug, Clone, PartialEq, Eq)]
pub enum WorkerAction {
    /// Wait for the next request, at most `timeout_ms` milliseconds.
    Receive { timeout_ms: u64 },
    /// Open the file at `path`.
    Open { path: String },
    /// Decode the file just opened into a buffer.
    Decode,
    /// Play the buffer cached under `key` on a new detached sink.
    Play { key: String },
    /// Sleep for `ms` milliseconds.
    Sleep { ms: u64 },
    /// Exit normally, releasing the output stream.
    Exit,
    /// Stop on a fatal error.
    Abort,
}

/// The key of the request that `state` is serving, if it is serving one.
pub open spec fn serving(state: WorkerState) -> Option<Seq<char>> {
    match state {
        WorkerState::Opening { key, .. } => Some(key@),
        WorkerState::Decoding { key } => Some(key@),
        WorkerState::Playing { key } => Some(key@),
        _ => None,
    }
}

/// The action that waits for the next request.
pub open spec fn is_receive(a: WorkerAction) -> bool {
    a == (WorkerAction::Receive { timeout_ms: IDLE_TIMEOUT_MS })
}

/// `a` plays the buffer cached under `k`.
pub open spec fn plays(a: WorkerAction, k: Seq<char>) -> bool {
    match a {
        WorkerAction::Play { key } => key@ == k,
        _ => false,
    }
}

/// `a` opens the file at `p`.
pub open spec fn opens(a: WorkerAction, p: Seq<char>) -> bool {
    match a {
        WorkerAction::Open { path } => path@ == p,
        _ => false,
    }
}

/// `t` is opening the file for `k`, at its fallback sibling when `fallback` holds.
pub open spec fn is_opening(t: WorkerState, k: Seq<char>, fallback: bool) -> bool {
    match t {
        WorkerState::Opening { key, fallback: f } => key@ == k && f == fallback,
        _ => false,
    }
}

/// `t` is decoding the file opened for `k`.
pub open spec fn is_decoding(t: WorkerState, k: Seq<char>) -> bool {
    match t {
        WorkerState::Decoding { key } => key@ == k,
        _ => false,
    }
}

/// `t` is starting the playback of `k`.
pub open spec fn is_playing(t: WorkerState, k: Seq<char>) -> bool {
    match t {
        WorkerState::Playing { key } => key@ == k,
        _ => false,
    }
}

/// One step of the worker: from `s` and cache `c`, event `e` leads to state
/// `t`, cache `d` and action `a`.
pub open spec fn transition<B>(
    s: WorkerState,
    c: Map<Seq<char>, B>,
    e: WorkerEvent<B>,
    t: WorkerState,
    d: Map<Seq<char>, B>,
    a: WorkerAction,
) -> bool {
    match (s, e) {
        (WorkerState::Starting, WorkerEvent::StreamOpened) => {
            &&& t is Waiting
            &&& d == c
            &&& is_receive(a)
        },
        (WorkerState::Waiting, WorkerEvent::Received(k)) => {
            &&& d == c
            &&& if c.contains_key(k@) {
                is_playing(t, k@) && plays(a, k@)
            } else {
                is_opening(t, k@, false) && opens(a, k@)
            }
        },
        (WorkerState::Waiting, WorkerEvent::TimedOut) => {
            &&& t is Draining
            &&& d == c
            &&& a == (WorkerAction::Sleep { ms: DRAIN_SLEEP_MS })
        },
        (WorkerState::Opening { key: k, .. }, WorkerEvent::FileOpened) => {
            &&& d == c
            &&& is_decoding(t, k@)
            &&& a is Decode
        },
        (WorkerState::Opening { key: k, fallback: false }, WorkerEvent::OpenFailed) => {
            &&& d == c
            &&& is_opening(t, k@, true)
            &&& opens(a, fallback_of(k@))
        },
        (WorkerState::Decoding { key: k }, WorkerEvent::Decoded(b)) => {
            &&& d == (if c.contains_key(k@) { c } else { c.insert(k@, b) })
            &&& is_playing(t, k@)
            &&& plays(a, k@)
        },
        (WorkerState::Playing { .. }, WorkerEvent::SinkStarted) => {
            &&& t is Waiting
            &&& d == c
            &&& is_receive(a)
        },
        (WorkerState::Draining, WorkerEvent::Slept) => {
            &&& t is Finished
            &&& d == c
            &&& a is Exit
        },
        _ => {
            &&& t is Failed
            &&& d == c
            &&& a is Abort
        },
    }
}

impl WorkerState {
    /// Takes `event`, updates the state and the cache, and says what to do next.
    /// An event that the state does not expect stops the worker.
    pub fn step<B>(&mut self, cache: &mut SampleCache<B>, event: WorkerEvent<B>) -> (a: WorkerAction)
        requires
            old(cache).wf(),
        ensures
            final(cache).wf(),
            transition(*old(self), old(cache)@, event, *final(self), final(cache)@, a),
    {
        let mut s = WorkerState::Failed;
        std::mem::swap(self, &mut s);
        match (s, event) {
            (WorkerState::Starting, WorkerEvent::StreamOpened) => {
                *self = WorkerState::Waiting;
                WorkerAction::Receive { timeout_ms: IDLE_TIMEOUT_MS }
            },
            (WorkerState::Waiting, WorkerEvent::Received(k)) => {
                if cache.get(&k).is_some() {
                    let key = k.clone();
                    *self = WorkerState::Playing { key: k };
                    WorkerAction::Play { key }
                } else {
                    let path = k.clone();
                    *self = WorkerState::Opening { key: k, fallback: false };
                    WorkerAction::Open { path }
                }
            },
            (WorkerState::Waiting, WorkerEvent::TimedOut) => {
                *self = WorkerState::Draining;
                WorkerAction::Sleep { ms: DRAIN_SLEEP_MS }
            },
            (WorkerState::Opening { key, .. }, WorkerEvent::FileOpened) => {
                *self = WorkerState::Decoding { key };
                WorkerAction::Decode
            },
            (WorkerState::Opening { key, fallback }, WorkerEvent::OpenFailed) => {
                if fallback {
                    WorkerAction::Abort
                } else {
                    let path = fallback_path(key.as_str());
                    *self = WorkerState::Opening { key, fallback: true };
                    WorkerAction::Open { path }
                }
            },
            (WorkerState::Decoding { key }, WorkerEvent::Decoded(b)) => {
                let stored = key.clone();
                cache.insert_if_absent(stored, b);
                let played = key.clone();
                *self = WorkerState::Playing { key };
                WorkerAction::Play { key: played }
            },
            (WorkerState::Playing { .. }, WorkerEvent::SinkStarted) => {
                *self = WorkerState::Waiting;
                WorkerAction::Receive { timeout_ms: IDLE_TIMEOUT_MS }
            },
            (WorkerState::Draining, WorkerEvent::Slept) => {
                *self = WorkerState::Finished;
                WorkerAction::Exit
            },
            _ => WorkerAction::Abort,
        }
    }
}

} // verus!
