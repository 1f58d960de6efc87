use std::collections::HashMap;
use volume_mixer::cache::{Change, VolumeMixerState};
use volume_mixer::session::{AudioSession, PLACEHOLDER_ICON};

fn session(pid: u32, name: &str, volume: f32, muted: bool) -> AudioSession {
    AudioSession {
        pid,
        name: String::from(name),
        path: format!("C:\\apps\\{}.exe", name),
        volume_bits: volume.to_bits(),
        muted,
        icon_path: Some(String::from(PLACEHOLDER_ICON)),
    }
}

fn two_sessions() -> VolumeMixerState {
    let mut sessions = HashMap::new();
    sessions.insert(100, session(100, "x", 0.5, false));
    sessions.insert(200, session(200, "y", 0.8, true));
    let mut state = VolumeMixerState::new();
    state.replace(sessions);
    state
}

#[test]
fn new_cache_is_empty() {
    let state = VolumeMixerState::new();
    assert_eq!(state.len(), 0);
    assert!(!state.contains(100));
    assert_eq!(state.get(100), None);
}

#[test]
fn default_cache_is_empty() {
    let state = VolumeMixerState::default();
    assert_eq!(state.len(), 0);
    assert!(state.sessions.is_empty());
}

#[test]
fn replace_swaps_all_contents() {
    let mut state = two_sessions();
    assert_eq!(state.len(), 2);
    let mut next = HashMap::new();
    next.insert(300, session(300, "z", 1.0, false));
    state.replace(next);
    assert_eq!(state.len(), 1);
    assert!(state.contains(300));
    assert!(!state.contains(100));
    assert!(!state.contains(200));
    assert_eq!(state.get(300), Some(session(300, "z", 1.0, false)));
}

#[test]
fn replace_with_nothing_empties_the_cache() {
    let mut state = two_sessions();
    state.replace(HashMap::new());
    assert_eq!(state.len(), 0);
}

#[test]
fn patch_volume_changes_one_field_of_one_entry() {
    let mut state = two_sessions();
    assert!(state.patch(100, Change::Volume(0.25f32.to_bits())));
    assert_eq!(state.get(100), Some(session(100, "x", 0.25, false)));
    assert_eq!(state.get(200), Some(session(200, "y", 0.8, true)));
    assert_eq!(state.len(), 2);
}

#[test]
fn patch_mute_changes_one_field_of_one_entry() {
    let mut state = two_sessions();
    assert!(state.patch(200, Change::Mute(false)));
    assert_eq!(state.get(200), Some(session(200, "y", 0.8, false)));
    assert_eq!(state.get(100), Some(session(100, "x", 0.5, false)));
    assert_eq!(state.len(), 2);
}

#[test]
fn patch_of_absent_process_has_no_effect() {
    let mut state = two_sessions();
    assert!(!state.patch(999, Change::Volume(0.3f32.to_bits())));
    assert!(!state.patch(999, Change::Mute(true)));
    assert_eq!(state.sessions, two_sessions().sessions);
}

#[test]
fn patch_on_empty_cache_has_no_effect() {
    let mut state = VolumeMixerState::new();
    assert!(!state.patch(1, Change::Mute(true)));
    assert_eq!(state.len(), 0);
}

#[test]
fn later_patch_wins() {
    let mut state = two_sessions();
    state.patch(100, Change::Volume(0.1f32.to_bits()));
    state.patch(100, Change::Mute(true));
    state.patch(100, Change::Volume(0.9f32.to_bits()));
    assert_eq!(state.get(100), Some(session(100, "x", 0.9, true)));
}

#[test]
fn get_returns_an_independent_copy() {
    let state = two_sessions();
    let mut snapshot = state.get(100).unwrap();
    snapshot.muted = true;
    snapshot.volume_bits = 0;
    snapshot.name.push_str("-edited");
    assert_eq!(state.get(100), Some(session(100, "x", 0.5, false)));
}

#[test]
fn contains_tells_cached_processes() {
    let state = two_sessions();
    assert!(state.contains(100));
    assert!(state.contains(200));
    assert!(!state.contains(0));
    assert!(!state.contains(u32::MAX));
}
