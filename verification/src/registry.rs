//! The registry's operations: refreshing the cache from an enumeration, and
//! changing the volume or the mute flag of one live session.
//!
//! A refresh needs one thing from the host, the enumeration. A change needs
//! two, in turn: the enumeration, from which the registry picks the live
//! session to act on, and then the outcome of applying the change to that
//! session, after which the registry patches its cache.

use crate::cache::{contents, patched, Change, VolumeMixerState};
use crate::error::{MixerError, MixerErrorView};
use crate::session::{
    build_session, session_of, AudioSession, AudioSessionView, RawSession, RawSessionView,
};
use std::collections::HashMap;
use vstd::prelude::*;
use vstd::std_specs::hash::*;

verus! {

broadcast use group_hash_axioms;

/// The records that a refresh returns for an enumeration: one per reported
/// session, in enumeration order.
pub open spec fn listing_of(raw: Seq<RawSessionView>) -> Seq<AudioSessionView> {
    Seq::new(raw.len(), |i: int| session_of(raw[i]))
}

/// The cache that a listing gives rise to: each record under its process id,
/// a later record taking the place of an earlier one with the same id.
pub open spec fn cache_of(listing: Seq<AudioSessionView>) -> Map<u32, AudioSessionView>
    decreases listing.len(),
{
    if listing.len() == 0 {
        Map::empty()
    } else {
        cache_of(listing.drop_last()).insert(listing.last().pid, listing.last())
    }
}

/// Whether `i` is the first position of `pids` that holds `pid`.
pub open spec fn is_first_position(pids: Seq<u32>, pid: u32, i: int) -> bool {
    &&& 0 <= i < pids.len()
    &&& pids[i] == pid
    &&& forall|j: int| 0 <= j < i ==> pids[j] != pid
}

/// Whether `i` is the last position of `listing` whose record belongs to `pid`.
pub open spec fn is_last_record_of(listing: Seq<AudioSessionView>, pid: u32, i: int) -> bool {
    &&& 0 <= i < listing.len()
    &&& listing[i].pid == pid
    &&& forall|j: int| i < j < listing.len() ==> listing[j].pid != pid
}

/// The error that reports that the audio subsystem rejected `change`.
pub open spec fn rejection_of(change: Change, detail: Seq<char>) -> MixerErrorView {
    match change {
        Change::Volume(_) => MixerErrorView::VolumeSetFailed(detail),
        Change::Mute(_) => MixerErrorView::MuteSetFailed(detail),
    }
}

/// A change that the registry has accepted for a live session and that the
/// host must now apply to that session.
#[derive(Clone, Copy, Debug, PartialEq, Eq)]
pub struct PendingChange {
    /// The process whose session is to change.
    pub pid: u32,
    /// Position of the target session in the enumeration the plan was made from.
    pub index: usize,
    /// What to change.
    pub change: Change,
}

/// Whether `plan` is the registry's decision on changing the session of
/// `pid`, given the outcome of a fresh enumeration (the process ids of the
/// live sessions, in order, or the subsystem's message).
pub open spec fn is_plan_for(
    pid: u32,
    change: Change,
    enumerated: Result<Vec<u32>, String>,
    plan: Result<PendingChange, MixerError>,
) -> bool {
    match enumerated {
        Err(detail) => plan matches Err(error) && error@ == MixerErrorView::EnumerationFailed(
            detail@,
        ),
        Ok(pids) => if pids@.contains(pid) {
            plan matches Ok(pending) && pending.pid == pid && pending.change == change
                && is_first_position(pids@, pid, pending.index as int)
        } else {
            plan matches Err(error) && error@ == MixerErrorView::SessionNotFound(pid)
        },
    }
}

/// What a cache built from a listing holds: exactly the process ids of the
/// listing, each with the last record listed for it, and every record under
/// its own process id.
pub proof fn lemma_cache_of(listing: Seq<AudioSessionView>)
    ensures
        cache_of(listing).dom().finite(),
        forall|pid: u32|
            cache_of(listing).contains_key(pid) <==> exists|i: int|
                0 <= i < listing.len() && #[trigger] listing[i].pid == pid,
        forall|pid: u32, i: int| #[trigger]
            is_last_record_of(listing, pid, i) ==> cache_of(listing)[pid] == listing[i],
        forall|pid: u32| #[trigger]
            cache_of(listing).contains_key(pid) ==> cache_of(listing)[pid].pid == pid,
    decreases listing.len(),
{
    if listing.len() > 0 {
        let front = listing.drop_last();
        let last = listing.last();
        lemma_cache_of(front);
        assert forall|pid: u32| cache_of(listing).contains_key(pid) implies exists|i: int|
            0 <= i < listing.len() && #[trigger] listing[i].pid == pid by {
            if pid == last.pid {
                assert(listing[listing.len() - 1].pid == pid);
            } else {
                let i = choose|i: int| 0 <= i < front.len() && #[trigger] front[i].pid == pid;
                assert(listing[i].pid == pid);
            }
        }
        assert forall|pid: u32|
            (exists|i: int|
                0 <= i < listing.len() && #[trigger] listing[i].pid == pid) implies cache_of(
            listing,
        ).contains_key(pid) by {
            let i = choose|i: int| 0 <= i < listing.len() && #[trigger] listing[i].pid == pid;
            if i < front.len() {
                assert(front[i].pid == pid);
            }
        }
        assert forall|pid: u32, i: int| #[trigger]
            is_last_record_of(listing, pid, i) implies cache_of(listing)[pid] == listing[i] by {
            if i < front.len() {
                assert(is_last_record_of(front, pid, i));
            }
        }
    }
}

/// A cache refreshed from an enumeration holds exactly the process ids that
/// the enumeration reports.
pub proof fn lemma_refreshed_cache(raw: Seq<RawSessionView>)
    ensures
        forall|pid: u32|
            cache_of(listing_of(raw)).contains_key(pid) <==> exists|i: int|
                0 <= i < raw.len() && #[trigger] raw[i].pid == pid,
{
    let listing = listing_of(raw);
    lemma_cache_of(listing);
    assert forall|pid: u32| cache_of(listing).contains_key(pid) implies exists|i: int|
        0 <= i < raw.len() && #[trigger] raw[i].pid == pid by {
        let i = choose|i: int| 0 <= i < listing.len() && #[trigger] listing[i].pid == pid;
        assert(raw[i].pid == pid);
    }
    assert forall|pid: u32|
        (exists|i: int| 0 <= i < raw.len() && #[trigger] raw[i].pid == pid) implies cache_of(
        listing,
    ).contains_key(pid) by {
        let i = choose|i: int| 0 <= i < raw.len() && #[trigger] raw[i].pid == pid;
        assert(listing[i].pid == pid);
    }
}

/// Finds the first live session that belongs to process `pid`.
pub fn find_session(pids: &Vec<u32>, pid: u32) -> (found: Option<usize>)
    ensures
        match found {
            Some(i) => is_first_position(pids@, pid, i as int),
            None => !pids@.contains(pid),
        },
{
    let mut i: usize = 0;
    while i < pids.len()
        invariant
            i <= pids.len(),
            forall|j: int| 0 <= j < i ==> pids@[j] != pid,
        decreases pids.len() - i,
    {
        if pids[i] == pid {
            return Some(i);
        }
        i += 1;
    }
    None
}

/// Decides how to change the session of process `pid`, given the outcome of a
/// fresh enumeration: the change is accepted for the first live session of
/// that process, and refused when the enumeration failed or lists no such
/// session.
pub fn plan_change(pid: u32, change: Change, enumerated: Result<Vec<u32>, String>) -> (plan: Result<
    PendingChange,
    MixerError,
>)
    ensures
        is_plan_for(pid, change, enumerated, plan),
{
    match enumerated {
        Err(detail) => Err(MixerError::EnumerationFailed(detail)),
        Ok(pids) => match find_session(&pids, pid) {
            Some(index) => Ok(PendingChange { pid, index, change }),
            None => Err(MixerError::SessionNotFound(pid)),
        },
    }
}

/// Starts a volume change for the session of process `pid`: picks the live
/// session that the host must set to the gain with bit pattern `volume_bits`.
pub fn set_volume(pid: u32, volume_bits: u32, enumerated: Result<Vec<u32>, String>) -> (plan: Result<
    PendingChange,
    MixerError,
>)
    ensures
        is_plan_for(pid, Change::Volume(volume_bits), enumerated, plan),
{
    plan_change(pid, Change::Volume(volume_bits), enumerated)
}

/// Starts a mute change for the session of process `pid`: picks the live
/// session that the host must mute or unmute.
pub fn set_mute(pid: u32, mute: bool, enumerated: Result<Vec<u32>, String>) -> (plan: Result<
    PendingChange,
    MixerError,
>)
    ensures
        is_plan_for(pid, Change::Mute(mute), enumerated, plan),
{
    plan_change(pid, Change::Mute(mute), enumerated)
}

/// Finishes a change once the host has applied it. When the audio subsystem
/// accepted the change, the cached session of the process is patched, if
/// there is one; when it rejected the change, the cache is left as it was and
/// the rejection is reported.
pub fn complete_change(
    state: &mut VolumeMixerState,
    pending: PendingChange,
    outcome: Result<(), String>,
) -> (reply: Result<(), MixerError>)
    ensures
        match outcome {
            Ok(_) => reply is Ok && final(state)@ == patched(
                old(state)@,
                pending.pid,
                pending.change,
            ),
            Err(detail) => reply matches Err(error) && error@ == rejection_of(
                pending.change,
                detail@,
            ) && final(state)@ == old(state)@,
        },
{
    match outcome {
        Ok(_) => {
            state.patch(pending.pid, pending.change);
            Ok(())
        },
        Err(detail) => match pending.change {
            Change::Volume(_) => Err(MixerError::VolumeSetFailed(detail)),
            Change::Mute(_) => Err(MixerError::MuteSetFailed(detail)),
        },
    }
}

/// Refreshes the cache from the outcome of an enumeration and returns the
/// session records in enumeration order. When the enumeration failed, the
/// cache is left as it was.
pub fn get_audio_sessions(
    state: &mut VolumeMixerState,
    enumerated: Result<Vec<RawSession>, String>,
) -> (reply: Result<Vec<AudioSession>, MixerError>)
    ensures
        match enumerated {
            Err(detail) => reply matches Err(error) && error@ == MixerErrorView::EnumerationFailed(
                detail@,
            ) && final(state)@ == old(state)@,
            Ok(raw) => {
                &&& reply matches Ok(listing) && listing.deep_view() == listing_of(raw.deep_view())
                &&& final(state)@ == cache_of(listing_of(raw.deep_view()))
                &&& forall|pid: u32|
                    final(state)@.contains_key(pid) <==> exists|i: int|
                        0 <= i < raw.len() && #[trigger] raw[i].pid == pid
            },
        },
{
    match enumerated {
        Err(detail) => Err(MixerError::EnumerationFailed(detail)),
        Ok(raw) => {
            let ghost expected = listing_of(raw.deep_view());
            let mut listing: Vec<AudioSession> = Vec::new();
            let mut sessions: HashMap<u32, AudioSession> = HashMap::new();
            let mut i: usize = 0;
            while i < raw.len()
                invariant
                    i <= raw.len(),
                    expected == listing_of(raw.deep_view()),
                    listing.len() == i,
                    forall|j: int| 0 <= j < i ==> listing@[j]@ == expected[j],
                    contents(sessions@) == cache_of(expected.take(i as int)),
                decreases raw.len() - i,
            {
                let session = build_session(&raw[i]);
                proof {
                    let next = expected.take(i + 1);
                    assert(next.drop_last() =~= expected.take(i as int));
                }
                listing.push(session.clone());
                sessions.insert(session.pid, session);
                i += 1;
            }
            assert(expected.take(i as int) =~= expected);
            proof {
                lemma_refreshed_cache(raw.deep_view());
                assert forall|pid: u32| cache_of(expected).contains_key(pid) <==> exists|i: int|
                    0 <= i < raw.len() && #[trigger] raw[i].pid == pid by {
                    if cache_of(expected).contains_key(pid) {
                        let i = choose|i: int|
                            0 <= i < raw.len() && #[trigger] raw.deep_view()[i].pid == pid;
                        assert(raw[i].pid == pid);
                    }
                    if exists|i: int| 0 <= i < raw.len() && #[trigger] raw[i].pid == pid {
                        let i = choose|i: int| 0 <= i < raw.len() && #[trigger] raw[i].pid == pid;
                        assert(raw.deep_view()[i].pid == pid);
                    }
                }
            }
            state.replace(sessions);
            Ok(listing)
        },
    }
}

} // verus!
