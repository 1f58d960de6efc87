//! The session cache: the last known session of each process, by process id.

use crate::session::{AudioSession, AudioSessionView};
use std::collections::HashMap;
use vstd::prelude::*;
use vstd::std_specs::hash::*;

verus! {

broadcast use group_hash_axioms;

/// A change to one field of a cached session.
#[derive(Clone, Copy, Debug, PartialEq, Eq)]
pub enum Change {
    /// Set the volume to the gain with this bit pattern.
    Volume(u32),
    /// Set the mute flag.
    Mute(bool),
}

/// `session` after `change`: the one field replaced, every other field kept.
pub open spec fn apply_change(session: AudioSessionView, change: Change) -> AudioSessionView {
    match change {
        Change::Volume(bits) => AudioSessionView { volume_bits: bits, ..session },
        Change::Mute(flag) => AudioSessionView { muted: flag, ..session },
    }
}

/// `cache` after patching the entry of `pid` with `change`: that entry changed
/// in place when present, and nothing added or removed either way.
pub open spec fn patched(
    cache: Map<u32, AudioSessionView>,
    pid: u32,
    change: Change,
) -> Map<u32, AudioSessionView> {
    if cache.contains_key(pid) {
        cache.insert(pid, apply_change(cache[pid], change))
    } else {
        cache
    }
}

/// The content of a map of session records, each record taken by its view.
pub open spec fn contents(sessions: Map<u32, AudioSession>) -> Map<u32, AudioSessionView> {
    Map::new(|pid: u32| sessions.contains_key(pid), |pid: u32| sessions[pid]@)
}

/// The registry's cache of sessions. It starts empty, is replaced wholesale by
/// each successful enumeration and patched in place by each accepted change.
#[derive(Debug)]
pub struct VolumeMixerState {
    pub sessions: HashMap<u32, AudioSession>,
}

impl View for VolumeMixerState {
    type V = Map<u32, AudioSessionView>;

    open spec fn view(&self) -> Map<u32, AudioSessionView> {
        contents(self.sessions@)
    }
}

impl Default for VolumeMixerState {
    fn default() -> (state: Self)
        ensures
            state@ == Map::<u32, AudioSessionView>::empty(),
    {
        VolumeMixerState::new()
    }
}

impl VolumeMixerState {
    /// Creates the empty cache.
    pub fn new() -> (state: Self)
        ensures
            state@ == Map::<u32, AudioSessionView>::empty(),
    {
        let state = VolumeMixerState { sessions: HashMap::new() };
        state
    }

    /// Number of cached sessions.
    pub fn len(&self) -> (count: usize)
        ensures
            count == self@.len(),
    {
        assert(self@.dom() =~= self.sessions@.dom());
        self.sessions.len()
    }

    /// Whether a session of process `pid` is cached.
    pub fn contains(&self, pid: u32) -> (present: bool)
        ensures
            present == self@.contains_key(pid),
    {
        self.sessions.contains_key(&pid)
    }

    /// Returns an independent copy of the cached session of process `pid`.
    pub fn get(&self, pid: u32) -> (snapshot: Option<AudioSession>)
        ensures
            match snapshot {
                Some(session) => self@.contains_key(pid) && session@ == self@[pid],
                None => !self@.contains_key(pid),
            },
    {
        match self.sessions.get(&pid) {
            Some(session) => Some(session.clone()),
            None => None,
        }
    }

    /// Swaps the entire contents of the cache for `sessions`.
    pub fn replace(&mut self, sessions: HashMap<u32, AudioSession>)
        ensures
            final(self)@ == contents(sessions@),
    {
        self.sessions = sessions;
    }

    /// Applies `change` to the cached session of process `pid`, if there is
    /// one, and reports whether there was.
    pub fn patch(&mut self, pid: u32, change: Change) -> (found: bool)
        ensures
            found == old(self)@.contains_key(pid),
            final(self)@ == patched(old(self)@, pid, change),
    {
        match self.sessions.remove(&pid) {
            Some(session) => {
                let updated = match change {
                    Change::Volume(bits) => AudioSession { volume_bits: bits, ..session },
                    Change::Mute(flag) => AudioSession { muted: flag, ..session },
                };
                self.sessions.insert(pid, updated);
                true
            },
            None => {
                false
            },
        }
    }
}

} // verus!
