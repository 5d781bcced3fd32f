use vstd::prelude::*;
use std::sync::Arc;
use crate::queue::MusicState;

verus! {

#[verifier::external_type_specification]
#[verifier::external_body]
#[verifier::reject_recursive_types(K)]
#[verifier::reject_recursive_types(V)]
#[verifier::reject_recursive_types(S)]
pub struct ExDashMap<K, V, S>(dashmap::DashMap<K, V, S>);

#[verifier::external_type_specification]
#[verifier::external_body]
#[verifier::reject_recursive_types(T)]
pub struct ExAsyncMutex<T: ?Sized>(tokio::sync::Mutex<T>);

/// Relies on tokio's `Mutex::new`: a new, unlocked mutex that owns `state`.
#[verifier::external_body]
fn new_lock<H>(state: MusicState<H>) -> (r: tokio::sync::Mutex<MusicState<H>>) {
    tokio::sync::Mutex::new(state)
}

/// A guild's playback state, shared between command handlers and the
/// completion callbacks of its tracks, behind an asynchronous lock.
pub type SharedState<H> = Arc<tokio::sync::Mutex<MusicState<H>>>;

/// A fresh shared state: idle, nothing pending, normal mode.
fn fresh_state<H>() -> (r: SharedState<H>) {
    Arc::new(new_lock(MusicState::new()))
}

/// Relies on `dashmap::DashMap::new`: an empty concurrent map.
#[verifier::external_body]
fn empty_map<H>() -> (r: dashmap::DashMap<u64, SharedState<H>>) {
    dashmap::DashMap::new()
}

/// Relies on `DashMap::entry` with `Entry::or_insert_with`: the lookup and
/// the insertion of a missing entry happen under the write lock of the
/// key's shard, so the state stored for `guild` is created at most once,
/// and the one stored is handed back (a new reference to it).
#[verifier::external_body]
fn entry_or_fresh<H>(map: &dashmap::DashMap<u64, SharedState<H>>, guild: u64) -> (r: SharedState<H>) {
    map.entry(guild).or_insert_with(fresh_state::<H>).clone()
}

/// The process-wide mapping from guild identifier to that guild's playback
/// state, one lock per guild.
#[verifier::reject_recursive_types(H)]
pub struct PlaybackRegistry<H> {
    states: dashmap::DashMap<u64, SharedState<H>>,
}

impl<H> PlaybackRegistry<H> {
    /// A registry that knows no guild yet.
    pub fn new() -> (r: PlaybackRegistry<H>) {
        PlaybackRegistry { states: empty_map() }
    }

    /// The state of `guild`, created idle on first use. Callers racing on
    /// the same new guild all get the one state that was stored.
    pub fn get_or_create(&self, guild: u64) -> (r: SharedState<H>) {
        entry_or_fresh(&self.states, guild)
    }
}

} // verus!
