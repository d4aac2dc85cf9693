//! Fire-and-forget sound playback: a sample cache that only grows, a worker
//! whose decisions are a verified state machine, and a submission path that
//! respawns the worker when it has retired.

mod cache;
mod laws;
mod path;
mod submit;
mod worker;

pub use path::{
    dir_prefix_len, fallback_name, fallback_of, fallback_path, names_no_file, trimmed_len, FALLBACK_FILE,
};
pub use cache::SampleCache;
pub use worker::{
    is_decoding, is_opening, is_playing, is_receive, opens, plays, serving,
    transition, WorkerAction, WorkerEvent, WorkerState,
    DRAIN_SLEEP_MS, IDLE_TIMEOUT_MS,
};
pub use submit::{play_sound, Submitter};
pub use laws::{
    decodes, is_run, lemma_cache_entries_kept, lemma_cached_request_skips_decode,
    lemma_decoded_at_most_once, lemma_one_request_at_a_time, lemma_plays_latest_request,
    last_received, is_step, lemma_received_is_served,
    not_yet_cached, respawn, lemma_uncached_request_decodes, lemma_missing_file_decodes_fallback,
    received_keys, played_keys, unplayed, lemma_sinks_in_arrival_order,
};
