use vstd::prelude::*;
use crate::path::fallback_of;
use crate::worker::{is_decoding, is_playing, opens, is_receive, plays, serving, transition, WorkerAction, WorkerEvent, WorkerState};

verus! {

/// A retired or failed worker is replaced by a new one that starts from
/// scratch; the process-wide cache is kept.
pub open spec fn respawn<B>(
    s: WorkerState,
    c: Map<Seq<char>, B>,
    t: WorkerState,
    d: Map<Seq<char>, B>,
) -> bool {
    (s is Finished || s is Failed) && t is Starting && d == c
}

/// A trace of the process: workers that follow one another. Each step is
/// either a worker's transition on an event, with the action it gave, or a
/// respawn, which has neither.
pub open spec fn is_run<B>(
    states: Seq<WorkerState>,
    caches: Seq<Map<Seq<char>, B>>,
    events: Seq<Option<WorkerEvent<B>>>,
    actions: Seq<Option<WorkerAction>>,
) -> bool {
    &&& states.len() == events.len() + 1
    &&& caches.len() == events.len() + 1
    &&& actions.len() == events.len()
    &&& states[0] is Starting
    &&& forall|i: int| 0 <= i < events.len() ==> is_step(states, caches, events, actions, i)
}

/// Step `i` of a trace.
pub open spec fn is_step<B>(
    states: Seq<WorkerState>,
    caches: Seq<Map<Seq<char>, B>>,
    events: Seq<Option<WorkerEvent<B>>>,
    actions: Seq<Option<WorkerAction>>,
    i: int,
) -> bool {
    match (events[i], actions[i]) {
        (Some(e), Some(a)) => transition(states[i], caches[i], e, states[i + 1], caches[i + 1], a),
        (None, None) => respawn(states[i], caches[i], states[i + 1], caches[i + 1]),
        _ => false,
    }
}

/// The step from `s` on `e` decodes a file for `k`.
pub open spec fn decodes<B>(s: WorkerState, e: Option<WorkerEvent<B>>, k: Seq<char>) -> bool {
    is_decoding(s, k) && e matches Some(WorkerEvent::Decoded(_))
}

/// A key that the worker is opening or decoding a file for is not cached yet.
pub open spec fn not_yet_cached<B>(s: WorkerState, c: Map<Seq<char>, B>) -> bool {
    match s {
        WorkerState::Opening { key, .. } => !c.contains_key(key@),
        WorkerState::Decoding { key } => !c.contains_key(key@),
        _ => true,
    }
}

/// The cache only grows: every entry survives a step with the same buffer.
pub proof fn lemma_cache_entries_kept<B>(
    s: WorkerState,
    c: Map<Seq<char>, B>,
    e: WorkerEvent<B>,
    t: WorkerState,
    d: Map<Seq<char>, B>,
    a: WorkerAction,
    k: Seq<char>,
)
    requires
        transition(s, c, e, t, d, a),
        c.contains_key(k),
    ensures
        d.contains_key(k),
        d[k] == c[k],
{
}

/// A request for a cached path is played at once: nothing is opened or
/// decoded and the cache is untouched.
pub proof fn lemma_cached_request_skips_decode<B>(
    c: Map<Seq<char>, B>,
    k: String,
    t: WorkerState,
    d: Map<Seq<char>, B>,
    a: WorkerAction,
)
    requires
        transition(WorkerState::Waiting, c, WorkerEvent::Received(k), t, d, a),
        c.contains_key(k@),
    ensures
        d == c,
        is_playing(t, k@),
        plays(a, k@),
{
}

/// While a request is being served, the worker takes no other: it waits on
/// the channel again only once that request's playback has started, and
/// whatever it plays is the request it serves.
pub proof fn lemma_one_request_at_a_time<B>(
    s: WorkerState,
    c: Map<Seq<char>, B>,
    e: WorkerEvent<B>,
    t: WorkerState,
    d: Map<Seq<char>, B>,
    a: WorkerAction,
)
    requires
        transition(s, c, e, t, d, a),
        serving(s) is Some,
    ensures
        is_receive(a) ==> s is Playing && e is SinkStarted,
        a is Play ==> plays(a, serving(s)->Some_0),
        serving(t) is Some ==> serving(t) == serving(s),
{
}

/// A received request is the one served next.
pub proof fn lemma_received_is_served<B>(
    c: Map<Seq<char>, B>,
    k: String,
    t: WorkerState,
    d: Map<Seq<char>, B>,
    a: WorkerAction,
)
    requires
        transition(WorkerState::Waiting, c, WorkerEvent::Received(k), t, d, a),
    ensures
        serving(t) == Some(k@),
{
}

proof fn lemma_run_prefix<B>(
    states: Seq<WorkerState>,
    caches: Seq<Map<Seq<char>, B>>,
    events: Seq<Option<WorkerEvent<B>>>,
    actions: Seq<Option<WorkerAction>>,
    j: int,
)
    requires
        is_run(states, caches, events, actions),
        0 <= j <= events.len(),
    ensures
        not_yet_cached(states[j], caches[j]),
    decreases j,
{
    if j > 0 {
        lemma_run_prefix(states, caches, events, actions, j - 1);
        let i = j - 1;
        assert(is_step(states, caches, events, actions, i));
    }
}

proof fn lemma_run_keeps_key<B>(
    states: Seq<WorkerState>,
    caches: Seq<Map<Seq<char>, B>>,
    events: Seq<Option<WorkerEvent<B>>>,
    actions: Seq<Option<WorkerAction>>,
    i: int,
    j: int,
    k: Seq<char>,
)
    requires
        is_run(states, caches, events, actions),
        0 <= i <= j <= events.len(),
        caches[i].contains_key(k),
    ensures
        caches[j].contains_key(k),
    decreases j - i,
{
    if i < j {
        lemma_run_keeps_key(states, caches, events, actions, i, j - 1, k);
        let m = j - 1;
        assert(is_step(states, caches, events, actions, m));
    }
}

/// Over the life of the process, across worker respawns, a path is decoded
/// at most once: after its first decode it is cached, and cached paths are
/// never decoded again.
pub proof fn lemma_decoded_at_most_once<B>(
    states: Seq<WorkerState>,
    caches: Seq<Map<Seq<char>, B>>,
    events: Seq<Option<WorkerEvent<B>>>,
    actions: Seq<Option<WorkerAction>>,
    k: Seq<char>,
    i: int,
    j: int,
)
    requires
        is_run(states, caches, events, actions),
        0 <= i < events.len(),
        0 <= j < events.len(),
        decodes(states[i], events[i], k),
        decodes(states[j], events[j], k),
    ensures
        i == j,
{
    if i != j {
        let (p, q) = if i < j { (i, j) } else { (j, i) };
        assert(is_step(states, caches, events, actions, p));
        assert(caches[p + 1].contains_key(k));
        lemma_run_keeps_key(states, caches, events, actions, p + 1, q, k);
        lemma_run_prefix(states, caches, events, actions, q);
    }
}

/// The path of the latest request among the first `j` events.
pub open spec fn last_received<B>(events: Seq<Option<WorkerEvent<B>>>, j: int) -> Option<Seq<char>>
    decreases j,
{
    if j <= 0 {
        None
    } else {
        match events[j - 1] {
            Some(WorkerEvent::Received(k)) => Some(k@),
            _ => last_received(events, j - 1),
        }
    }
}

proof fn lemma_run_serves_latest<B>(
    states: Seq<WorkerState>,
    caches: Seq<Map<Seq<char>, B>>,
    events: Seq<Option<WorkerEvent<B>>>,
    actions: Seq<Option<WorkerAction>>,
    j: int,
)
    requires
        is_run(states, caches, events, actions),
        0 <= j <= events.len(),
    ensures
        serving(states[j]) is Some ==> serving(states[j]) == last_received(events, j),
    decreases j,
{
    if j > 0 {
        lemma_run_serves_latest(states, caches, events, actions, j - 1);
        let i = j - 1;
        assert(is_step(states, caches, events, actions, i));
    }
}

/// Requests are played in the order they arrive: whatever the worker plays
/// is the latest request it has received, so a request still waiting in the
/// channel is never played ahead of it.
pub proof fn lemma_plays_latest_request<B>(
    states: Seq<WorkerState>,
    caches: Seq<Map<Seq<char>, B>>,
    events: Seq<Option<WorkerEvent<B>>>,
    actions: Seq<Option<WorkerAction>>,
    j: int,
)
    requires
        is_run(states, caches, events, actions),
        0 <= j < events.len(),
        actions[j] matches Some(WorkerAction::Play { .. }),
    ensures
        plays(actions[j]->Some_0, last_received(events, j + 1)->Some_0),
        last_received(events, j + 1) is Some,
{
    lemma_run_serves_latest(states, caches, events, actions, j);
    assert(is_step(states, caches, events, actions, j));
}

/// A request for a path that is not cached yet is decoded: the worker opens
/// the path, decodes what it opened, caches the buffer under the requested
/// path and plays it.
pub proof fn lemma_uncached_request_decodes<B>(
    c: Map<Seq<char>, B>,
    k: String,
    b: B,
    t1: WorkerState,
    d1: Map<Seq<char>, B>,
    a1: WorkerAction,
    t2: WorkerState,
    d2: Map<Seq<char>, B>,
    a2: WorkerAction,
    t3: WorkerState,
    d3: Map<Seq<char>, B>,
    a3: WorkerAction,
)
    requires
        !c.contains_key(k@),
        transition(WorkerState::Waiting, c, WorkerEvent::Received(k), t1, d1, a1),
        transition(t1, d1, WorkerEvent::<B>::FileOpened, t2, d2, a2),
        transition(t2, d2, WorkerEvent::Decoded(b), t3, d3, a3),
    ensures
        opens(a1, k@),
        a2 is Decode,
        d3 == c.insert(k@, b),
        plays(a3, k@),
{
}

/// A request for a path that cannot be opened falls back to its sibling
/// named like the default sound; what that decodes to is cached under the
/// requested path.
pub proof fn lemma_missing_file_decodes_fallback<B>(
    c: Map<Seq<char>, B>,
    k: String,
    b: B,
    t1: WorkerState,
    d1: Map<Seq<char>, B>,
    a1: WorkerAction,
    t2: WorkerState,
    d2: Map<Seq<char>, B>,
    a2: WorkerAction,
    t3: WorkerState,
    d3: Map<Seq<char>, B>,
    a3: WorkerAction,
    t4: WorkerState,
    d4: Map<Seq<char>, B>,
    a4: WorkerAction,
)
    requires
        !c.contains_key(k@),
        transition(WorkerState::Waiting, c, WorkerEvent::Received(k), t1, d1, a1),
        transition(t1, d1, WorkerEvent::<B>::OpenFailed, t2, d2, a2),
        transition(t2, d2, WorkerEvent::<B>::FileOpened, t3, d3, a3),
        transition(t3, d3, WorkerEvent::Decoded(b), t4, d4, a4),
    ensures
        opens(a1, k@),
        opens(a2, fallback_of(k@)),
        a3 is Decode,
        d4 == c.insert(k@, b),
        plays(a4, k@),
{
}

/// The paths of the requests among the first `j` events, in arrival order.
pub open spec fn received_keys<B>(events: Seq<Option<WorkerEvent<B>>>, j: int) -> Seq<Seq<char>>
    decreases j,
{
    if j <= 0 {
        Seq::empty()
    } else {
        match events[j - 1] {
            Some(WorkerEvent::Received(k)) => received_keys(events, j - 1).push(k@),
            _ => received_keys(events, j - 1),
        }
    }
}

/// The paths played by the first `j` actions, in the order the sinks were made.
pub open spec fn played_keys(actions: Seq<Option<WorkerAction>>, j: int) -> Seq<Seq<char>>
    decreases j,
{
    if j <= 0 {
        Seq::empty()
    } else {
        match actions[j - 1] {
            Some(WorkerAction::Play { key }) => played_keys(actions, j - 1).push(key@),
            _ => played_keys(actions, j - 1),
        }
    }
}

/// The worker holds a request that it has not played yet.
pub open spec fn unplayed(s: WorkerState) -> bool {
    s is Opening || s is Decoding
}

/// Sinks are made in arrival order: while no step fails, the i-th sink plays
/// the i-th request received, and every request received is played but for
/// the one still being opened or decoded.
pub proof fn lemma_sinks_in_arrival_order<B>(
    states: Seq<WorkerState>,
    caches: Seq<Map<Seq<char>, B>>,
    events: Seq<Option<WorkerEvent<B>>>,
    actions: Seq<Option<WorkerAction>>,
    j: int,
)
    requires
        is_run(states, caches, events, actions),
        0 <= j <= events.len(),
        forall|i: int| 0 <= i < j ==> !(#[trigger] actions[i] matches Some(WorkerAction::Abort)),
    ensures
        unplayed(states[j]) ==> received_keys(events, j).len() > 0
            && played_keys(actions, j) == received_keys(events, j).drop_last()
            && serving(states[j]) == Some(received_keys(events, j).last()),
        !unplayed(states[j]) ==> played_keys(actions, j) == received_keys(events, j),
    decreases j,
{
    if j > 0 {
        let i = j - 1;
        lemma_sinks_in_arrival_order(states, caches, events, actions, i);
        assert(is_step(states, caches, events, actions, i));
        assert(!(actions[i] matches Some(WorkerAction::Abort)));
        let r = received_keys(events, i);
        let p = played_keys(actions, i);
        if let Some(WorkerEvent::Received(k)) = events[i] {
            assert(r.push(k@).drop_last() =~= r);
        }
        if unplayed(states[i]) {
            assert(r =~= r.drop_last().push(r.last()));
        }
    }
}

} // verus!
