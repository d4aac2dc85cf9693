use play_sound::{
    fallback_path, play_sound, SampleCache, Submitter, WorkerAction, WorkerEvent, WorkerState,
    DRAIN_SLEEP_MS, IDLE_TIMEOUT_MS,
};
use std::sync::{Arc, Mutex};

fn drive(state: &mut WorkerState, cache: &mut SampleCache<u32>, event: WorkerEvent<u32>) -> WorkerAction {
    state.step(cache, event)
}

fn receive() -> WorkerAction {
    WorkerAction::Receive { timeout_ms: IDLE_TIMEOUT_MS }
}

fn started(cache: &mut SampleCache<u32>) -> WorkerState {
    let mut state = WorkerState::Starting;
    assert_eq!(drive(&mut state, cache, WorkerEvent::StreamOpened), receive());
    state
}

/// Serves one request for `path`; a miss is answered by opening it and
/// decoding to `buffer`. Returns how many decodes it took.
fn serve(state: &mut WorkerState, cache: &mut SampleCache<u32>, path: &str, buffer: u32) -> u32 {
    let mut decodes = 0;
    let mut action = drive(state, cache, WorkerEvent::Received(path.to_string()));
    if action == (WorkerAction::Open { path: path.to_string() }) {
        assert_eq!(drive(state, cache, WorkerEvent::FileOpened), WorkerAction::Decode);
        decodes += 1;
        action = drive(state, cache, WorkerEvent::Decoded(buffer));
    }
    assert_eq!(action, WorkerAction::Play { key: path.to_string() });
    assert_eq!(drive(state, cache, WorkerEvent::SinkStarted), receive());
    decodes
}

#[test]
fn fallback_is_sibling_in_current_directory() {
    assert_eq!(fallback_path("./missing.wav"), "./A.mp3");
}

#[test]
fn fallback_of_bare_name() {
    assert_eq!(fallback_path("missing.wav"), "A.mp3");
    assert_eq!(fallback_path(""), "A.mp3");
}

#[test]
fn fallback_keeps_nested_directory() {
    assert_eq!(fallback_path("sounds/ui/click.ogg"), "sounds/ui/A.mp3");
    assert_eq!(fallback_path("/abs/dir/x.wav"), "/abs/dir/A.mp3");
    assert_eq!(fallback_path("sons/é/bip.wav"), "sons/é/A.mp3");
}

#[test]
fn fallback_replaces_last_segment_before_trailing_slashes() {
    assert_eq!(fallback_path("x/y/"), "x/A.mp3");
    assert_eq!(fallback_path("x/y//"), "x/A.mp3");
    assert_eq!(fallback_path("y/"), "A.mp3");
}

#[test]
fn fallback_joins_segments_that_name_no_file() {
    assert_eq!(fallback_path("x/.."), "x/../A.mp3");
    assert_eq!(fallback_path(".."), "../A.mp3");
    assert_eq!(fallback_path("x/../"), "x/../A.mp3");
    assert_eq!(fallback_path("/"), "/A.mp3");
    assert_eq!(fallback_path("x/..."), "x/A.mp3");
}

#[test]
fn cache_keeps_first_entry() {
    let mut cache: SampleCache<u32> = SampleCache::new();
    let key = "./beep.wav".to_string();
    assert_eq!(cache.len(), 0);
    assert_eq!(cache.get(&key), None);
    assert!(cache.insert_if_absent(key.clone(), 1));
    assert!(!cache.insert_if_absent(key.clone(), 2));
    assert_eq!(cache.get(&key), Some(&1));
    assert_eq!(cache.len(), 1);
}

#[test]
fn cache_keys_are_raw_strings() {
    let mut cache: SampleCache<u32> = SampleCache::new();
    assert!(cache.insert_if_absent("./beep.wav".to_string(), 1));
    assert!(cache.insert_if_absent("beep.wav".to_string(), 2));
    assert_eq!(cache.get(&"beep.wav".to_string()), Some(&2));
    assert_eq!(cache.get(&"./beep.wav".to_string()), Some(&1));
    assert_eq!(cache.len(), 2);
}

#[test]
fn single_submission_plays() {
    let mut cache = SampleCache::new();
    let mut state = started(&mut cache);
    assert_eq!(serve(&mut state, &mut cache, "./beep.wav", 7), 1);
    assert_eq!(state, WorkerState::Waiting);
    assert_eq!(cache.get(&"./beep.wav".to_string()), Some(&7));
}

#[test]
fn repeated_submissions_decode_once() {
    let mut cache = SampleCache::new();
    let mut state = started(&mut cache);
    let mut decodes = 0;
    for _ in 0..4 {
        decodes += serve(&mut state, &mut cache, "./beep.wav", 7);
    }
    assert_eq!(decodes, 1);
    assert_eq!(cache.len(), 1);
}

#[test]
fn missing_file_falls_back_and_is_cached() {
    let mut cache = SampleCache::new();
    let mut state = started(&mut cache);
    let key = "./missing.wav".to_string();
    assert_eq!(
        drive(&mut state, &mut cache, WorkerEvent::Received(key.clone())),
        WorkerAction::Open { path: key.clone() }
    );
    assert_eq!(
        drive(&mut state, &mut cache, WorkerEvent::OpenFailed),
        WorkerAction::Open { path: "./A.mp3".to_string() }
    );
    assert_eq!(drive(&mut state, &mut cache, WorkerEvent::FileOpened), WorkerAction::Decode);
    assert_eq!(
        drive(&mut state, &mut cache, WorkerEvent::Decoded(9)),
        WorkerAction::Play { key: key.clone() }
    );
    assert_eq!(drive(&mut state, &mut cache, WorkerEvent::SinkStarted), receive());
    assert_eq!(cache.get(&key), Some(&9));
    assert_eq!(cache.get(&"./A.mp3".to_string()), None);
    // The second request is a hit: nothing is opened.
    assert_eq!(
        drive(&mut state, &mut cache, WorkerEvent::Received(key.clone())),
        WorkerAction::Play { key }
    );
}

#[test]
fn missing_file_without_fallback_fails() {
    let mut cache = SampleCache::new();
    let mut state = started(&mut cache);
    drive(&mut state, &mut cache, WorkerEvent::Received("./missing.wav".to_string()));
    drive(&mut state, &mut cache, WorkerEvent::OpenFailed);
    assert_eq!(drive(&mut state, &mut cache, WorkerEvent::OpenFailed), WorkerAction::Abort);
    assert_eq!(state, WorkerState::Failed);
    assert_eq!(
        drive(&mut state, &mut cache, WorkerEvent::Received("./beep.wav".to_string())),
        WorkerAction::Abort
    );
    assert_eq!(cache.len(), 0);
}

#[test]
fn fatal_errors_abort() {
    let mut cache = SampleCache::new();
    let mut state = WorkerState::Starting;
    assert_eq!(drive(&mut state, &mut cache, WorkerEvent::StreamFailed), WorkerAction::Abort);
    assert_eq!(state, WorkerState::Failed);

    let mut state = started(&mut cache);
    drive(&mut state, &mut cache, WorkerEvent::Received("./bad.wav".to_string()));
    drive(&mut state, &mut cache, WorkerEvent::FileOpened);
    assert_eq!(drive(&mut state, &mut cache, WorkerEvent::DecodeFailed), WorkerAction::Abort);
    assert_eq!(cache.len(), 0);

    let mut state = started(&mut cache);
    assert_eq!(serve(&mut state, &mut cache, "./beep.wav", 1), 1);
    drive(&mut state, &mut cache, WorkerEvent::Received("./beep.wav".to_string()));
    assert_eq!(drive(&mut state, &mut cache, WorkerEvent::SinkFailed), WorkerAction::Abort);
    assert_eq!(state, WorkerState::Failed);
}

#[test]
fn idle_worker_retires_and_successor_uses_cache() {
    let mut cache = SampleCache::new();
    let mut state = started(&mut cache);
    assert_eq!(serve(&mut state, &mut cache, "./beep.wav", 3), 1);
    assert_eq!(
        drive(&mut state, &mut cache, WorkerEvent::TimedOut),
        WorkerAction::Sleep { ms: DRAIN_SLEEP_MS }
    );
    assert_eq!(drive(&mut state, &mut cache, WorkerEvent::Slept), WorkerAction::Exit);
    assert_eq!(state, WorkerState::Finished);
    let mut next = started(&mut cache);
    assert_eq!(serve(&mut next, &mut cache, "./beep.wav", 4), 0);
    assert_eq!(cache.get(&"./beep.wav".to_string()), Some(&3));
}

#[test]
fn unexpected_event_stops_worker() {
    let mut cache = SampleCache::new();
    let mut state = started(&mut cache);
    assert_eq!(drive(&mut state, &mut cache, WorkerEvent::FileOpened), WorkerAction::Abort);
    assert_eq!(state, WorkerState::Failed);
    let mut state = WorkerState::Finished;
    assert_eq!(drive(&mut state, &mut cache, WorkerEvent::Slept), WorkerAction::Abort);
    assert_eq!(state, WorkerState::Failed);
}

#[test]
fn constants_match_lifecycle() {
    assert_eq!(IDLE_TIMEOUT_MS, 20000);
    assert_eq!(DRAIN_SLEEP_MS, 100);
}

#[test]
fn plays_follow_submission_order() {
    let mut cache = SampleCache::new();
    let mut state = started(&mut cache);
    let (tx, rx) = flume::unbounded::<String>();
    let mut slot = Submitter::new(tx);
    for name in ["a.wav", "b.wav", "a.wav", "c.wav"] {
        assert!(play_sound(&mut slot, name.to_string(), || panic!("worker is live")).is_ok());
    }
    let mut played = Vec::new();
    while let Ok(name) = rx.try_recv() {
        let mut action = drive(&mut state, &mut cache, WorkerEvent::Received(name.clone()));
        if let WorkerAction::Open { .. } = action {
            drive(&mut state, &mut cache, WorkerEvent::FileOpened);
            action = drive(&mut state, &mut cache, WorkerEvent::Decoded(0));
        }
        if let WorkerAction::Play { key } = action {
            played.push(key);
        }
        drive(&mut state, &mut cache, WorkerEvent::SinkStarted);
    }
    assert_eq!(played, vec!["a.wav", "b.wav", "a.wav", "c.wav"]);
}

#[test]
fn live_worker_is_not_replaced() {
    let (tx, rx) = flume::unbounded::<String>();
    let mut slot = Submitter::new(tx);
    let mut spawned = 0;
    let r = play_sound(&mut slot, "./beep.wav".to_string(), || {
        spawned += 1;
        flume::unbounded().0
    });
    assert!(r.is_ok());
    assert_eq!(spawned, 0);
    assert_eq!(rx.try_recv().unwrap(), "./beep.wav");
}

#[test]
fn retired_worker_is_replaced_once() {
    let (tx, rx) = flume::unbounded::<String>();
    drop(rx);
    let mut slot = Submitter::new(tx);
    let (fresh_tx, fresh_rx) = flume::unbounded::<String>();
    let mut spawned = 0;
    let r = play_sound(&mut slot, "./beep.wav".to_string(), || {
        spawned += 1;
        fresh_tx
    });
    assert!(r.is_ok());
    assert_eq!(spawned, 1);
    assert_eq!(fresh_rx.try_recv().unwrap(), "./beep.wav");
    // The replacement is live: the next submission goes to the same worker.
    assert!(play_sound(&mut slot, "./boop.wav".to_string(), || panic!("worker is live")).is_ok());
    assert_eq!(fresh_rx.try_recv().unwrap(), "./boop.wav");
}

#[test]
fn submissions_continue_after_worker_dies() {
    let (tx, rx) = flume::unbounded::<String>();
    let mut slot = Submitter::new(tx);
    assert!(play_sound(&mut slot, "./missing.wav".to_string(), || panic!("worker is live")).is_ok());
    drop(rx);
    let mut spawned = 0;
    for _ in 0..3 {
        let r = play_sound(&mut slot, "./beep.wav".to_string(), || {
            spawned += 1;
            let (t, r) = flume::unbounded::<String>();
            drop(r);
            t
        });
        // A worker that dies at once hands the name back; nothing blocks.
        assert_eq!(r, Err("./beep.wav".to_string()));
    }
    assert_eq!(spawned, 3);
}

#[test]
fn many_submitters_share_one_cache_entry() {
    let (tx, rx) = flume::unbounded::<String>();
    let slot = Arc::new(Mutex::new(Submitter::new(tx)));
    let submitters: Vec<Arc<Mutex<Submitter>>> =
        (0..32).map(|_| Arc::clone(&slot)).collect();
    // The submitters take turns on the shared, locked sender.
    for _ in 0..100 {
        for submitter in &submitters {
            let mut tx = submitter.lock().unwrap();
            assert!(play_sound(&mut tx, "./beep.wav".to_string(), || panic!("worker is live")).is_ok());
        }
    }
    let mut cache = SampleCache::new();
    let mut state = started(&mut cache);
    let mut plays = 0;
    let mut decodes = 0;
    while let Ok(name) = rx.try_recv() {
        decodes += serve(&mut state, &mut cache, &name, 1);
        plays += 1;
    }
    assert_eq!(plays, 3200);
    assert_eq!(decodes, 1);
    assert_eq!(cache.len(), 1);
}

#[test]
fn checked_disconnection_replaces_sender() {
    let (old_tx, old_rx) = flume::unbounded::<String>();
    let mut slot = Submitter::new(old_tx);
    let (fresh_tx, fresh_rx) = flume::unbounded::<String>();
    let r = slot.submit_after_check(true, "./beep.wav".to_string(), || fresh_tx);
    assert!(r.is_ok());
    assert_eq!(fresh_rx.try_recv().unwrap(), "./beep.wav");
    assert!(old_rx.try_recv().is_err());
}

#[test]
fn checked_live_sender_is_kept() {
    let (tx, rx) = flume::unbounded::<String>();
    let mut slot = Submitter::new(tx);
    let r = slot.submit_after_check(false, "./a.wav".to_string(), || panic!("worker is live"));
    assert!(r.is_ok());
    let r = slot.submit_after_check(false, "./b.wav".to_string(), || panic!("worker is live"));
    assert!(r.is_ok());
    assert_eq!(rx.try_recv().unwrap(), "./a.wav");
    assert_eq!(rx.try_recv().unwrap(), "./b.wav");
    drop(rx);
    let r = slot.submit_after_check(false, "./c.wav".to_string(), || panic!("worker is live"));
    assert_eq!(r, Err("./c.wav".to_string()));
}
