//! Laws of the registry, stated over the mathematical content of its
//! operations and proved once for all inputs.
//!
//! A successful refresh turns the cache into `cache_of(listing_of(raw))`, and
//! a change that the audio subsystem applied turns it into
//! `patched(cache, pid, change)`; failed operations leave it as it was. The
//! laws below follow the cache through any sequence of such steps.

use crate::cache::{apply_change, patched, Change};
use crate::name::derived_name;
use crate::registry::{
    cache_of, is_last_record_of, lemma_cache_of, lemma_refreshed_cache, listing_of,
};
use crate::session::{
    icon_of, muted_or_default, volume_or_default, AudioSessionView, RawSessionView, DEFAULT_MUTED,
    DEFAULT_VOLUME_BITS,
};
use vstd::prelude::*;

verus! {

/// One step that changes the cache.
pub enum Operation {
    /// A refresh from a successful enumeration.
    Refresh(Seq<RawSessionView>),
    /// A change to the session of a process that the audio subsystem applied.
    Patch(u32, Change),
}

/// The cache after one operation.
pub open spec fn apply_operation(
    cache: Map<u32, AudioSessionView>,
    operation: Operation,
) -> Map<u32, AudioSessionView> {
    match operation {
        Operation::Refresh(raw) => cache_of(listing_of(raw)),
        Operation::Patch(pid, change) => patched(cache, pid, change),
    }
}

/// The cache after a sequence of operations, starting from `start`.
pub open spec fn cache_from(
    start: Map<u32, AudioSessionView>,
    operations: Seq<Operation>,
) -> Map<u32, AudioSessionView>
    decreases operations.len(),
{
    if operations.len() == 0 {
        start
    } else {
        apply_operation(cache_from(start, operations.drop_last()), operations.last())
    }
}

/// The cache of a registry that started empty and went through `history`.
pub open spec fn cache_after(history: Seq<Operation>) -> Map<u32, AudioSessionView> {
    cache_from(Map::empty(), history)
}

/// Whether `operations` holds changes only, no refresh.
pub open spec fn patches_only(operations: Seq<Operation>) -> bool {
    forall|k: int| 0 <= k < operations.len() ==> #[trigger] operations[k] is Patch
}

/// `record` after those changes of `operations` that target process `pid`,
/// applied in order.
pub open spec fn after_changes(
    record: AudioSessionView,
    pid: u32,
    operations: Seq<Operation>,
) -> AudioSessionView
    decreases operations.len(),
{
    if operations.len() == 0 {
        record
    } else {
        let before = after_changes(record, pid, operations.drop_last());
        match operations.last() {
            Operation::Patch(target, change) => if target == pid {
                apply_change(before, change)
            } else {
                before
            },
            Operation::Refresh(_) => before,
        }
    }
}

/// The volume set by the last volume change in `operations` that targets
/// process `pid`, if there is one.
pub open spec fn last_volume_set(pid: u32, operations: Seq<Operation>) -> Option<u32>
    decreases operations.len(),
{
    if operations.len() == 0 {
        None
    } else {
        match operations.last() {
            Operation::Patch(target, Change::Volume(bits)) => if target == pid {
                Some(bits)
            } else {
                last_volume_set(pid, operations.drop_last())
            },
            _ => last_volume_set(pid, operations.drop_last()),
        }
    }
}

/// The mute flag set by the last mute change in `operations` that targets
/// process `pid`, if there is one.
pub open spec fn last_mute_set(pid: u32, operations: Seq<Operation>) -> Option<bool>
    decreases operations.len(),
{
    if operations.len() == 0 {
        None
    } else {
        match operations.last() {
            Operation::Patch(target, Change::Mute(flag)) => if target == pid {
                Some(flag)
            } else {
                last_mute_set(pid, operations.drop_last())
            },
            _ => last_mute_set(pid, operations.drop_last()),
        }
    }
}

/// The process ids of an enumeration, in order.
pub open spec fn pids_of(live: Seq<RawSessionView>) -> Seq<u32> {
    Seq::new(live.len(), |i: int| live[i].pid)
}

/// What the audio subsystem reports for a session once it has applied
/// `change` to it: the changed field reads as set, the rest reads as before.
pub open spec fn report_after(session: RawSessionView, change: Change) -> RawSessionView {
    match change {
        Change::Volume(bits) => RawSessionView { volume_bits: Some(bits), ..session },
        Change::Mute(flag) => RawSessionView { muted: Some(flag), ..session },
    }
}

/// A patch changes one field of one entry: it adds no entry and removes none,
/// leaves every other entry as it was, and is without effect when the process
/// has no entry.
pub proof fn lemma_patch_is_local(cache: Map<u32, AudioSessionView>, pid: u32, change: Change)
    ensures
        patched(cache, pid, change).dom() == cache.dom(),
        !cache.contains_key(pid) ==> patched(cache, pid, change) == cache,
        forall|other: u32|
            other != pid && cache.contains_key(other) ==> #[trigger] patched(
                cache,
                pid,
                change,
            )[other] == cache[other],
        cache.contains_key(pid) ==> patched(cache, pid, change)[pid] == apply_change(
            cache[pid],
            change,
        ),
{
}

/// A refresh is total: whatever the cache held before, afterwards it holds
/// exactly the process ids of the enumeration, so no entry of a process that
/// is no longer listed survives.
pub proof fn lemma_refresh_replaces(previous: Map<u32, AudioSessionView>, raw: Seq<RawSessionView>)
    ensures
        forall|pid: u32|
            apply_operation(previous, Operation::Refresh(raw)).contains_key(pid) <==> exists|
                i: int,
            |
                0 <= i < raw.len() && #[trigger] raw[i].pid == pid,
        forall|pid: u32|
            previous.contains_key(pid) && (forall|i: int|
                0 <= i < raw.len() ==> #[trigger] raw[i].pid != pid) ==> !apply_operation(
                previous,
                Operation::Refresh(raw),
            ).contains_key(pid),
{
    lemma_refreshed_cache(raw);
}

/// Changes alone never add or remove an entry, and each entry ends up as its
/// record with the changes that target its process applied in order.
pub proof fn lemma_patches_keep_entries(
    start: Map<u32, AudioSessionView>,
    operations: Seq<Operation>,
)
    requires
        patches_only(operations),
    ensures
        cache_from(start, operations).dom() == start.dom(),
        forall|pid: u32|
            start.contains_key(pid) ==> #[trigger] cache_from(start, operations)[pid]
                == after_changes(start[pid], pid, operations),
    decreases operations.len(),
{
    if operations.len() > 0 {
        let front = operations.drop_last();
        assert(patches_only(front)) by {
            assert forall|k: int| 0 <= k < front.len() implies #[trigger] front[k] is Patch by {
                assert(front[k] == operations[k]);
            }
        }
        lemma_patches_keep_entries(start, front);
        match operations.last() {
            Operation::Patch(target, change) => {
                lemma_patch_is_local(cache_from(start, front), target, change);
            },
            Operation::Refresh(_) => {},
        }
    }
}

/// Running two sequences of operations one after the other is running their
/// concatenation.
pub proof fn lemma_cache_from_concat(
    start: Map<u32, AudioSessionView>,
    first: Seq<Operation>,
    second: Seq<Operation>,
)
    ensures
        cache_from(start, first + second) == cache_from(cache_from(start, first), second),
    decreases second.len(),
{
    if second.len() > 0 {
        assert((first + second).drop_last() =~= first + second.drop_last());
        lemma_cache_from_concat(start, first, second.drop_last());
    }
}

/// What a record looks like after a run of changes: the changes touch the
/// volume and the mute flag only, the volume is the one set last for the
/// process, or the record's own when none was set, and likewise the mute flag.
pub proof fn lemma_after_changes(record: AudioSessionView, pid: u32, operations: Seq<Operation>)
    ensures
        after_changes(record, pid, operations).pid == record.pid,
        after_changes(record, pid, operations).name == record.name,
        after_changes(record, pid, operations).path == record.path,
        after_changes(record, pid, operations).icon_path == record.icon_path,
        after_changes(record, pid, operations).volume_bits == match last_volume_set(
            pid,
            operations,
        ) {
            Some(bits) => bits,
            None => record.volume_bits,
        },
        after_changes(record, pid, operations).muted == match last_mute_set(pid, operations) {
            Some(flag) => flag,
            None => record.muted,
        },
    decreases operations.len(),
{
    if operations.len() > 0 {
        lemma_after_changes(record, pid, operations.drop_last());
    }
}

/// Whether position `r` of `history` holds its most recent refresh.
pub open spec fn is_last_refresh(history: Seq<Operation>, r: int) -> bool {
    &&& 0 <= r < history.len()
    &&& history[r] is Refresh
    &&& patches_only(history.skip(r + 1))
}

/// Whether `cache` is what a registry must hold after a refresh from the
/// enumeration `raw` followed by the changes `later`: exactly one entry per
/// process id of the enumeration, each the last record listed for its
/// process, except that its volume and its mute flag are the ones set by the
/// most recent change applied for that process since, where there was one.
pub open spec fn is_consistent_with(
    cache: Map<u32, AudioSessionView>,
    raw: Seq<RawSessionView>,
    later: Seq<Operation>,
) -> bool {
    &&& cache.dom().finite()
    &&& forall|pid: u32|
        cache.contains_key(pid) <==> exists|i: int|
            0 <= i < raw.len() && #[trigger] raw[i].pid == pid
    &&& forall|pid: u32, i: int| #[trigger]
        is_last_record_of(listing_of(raw), pid, i) ==> {
            &&& cache[pid].pid == pid
            &&& cache[pid].name == derived_name(raw[i].path)
            &&& cache[pid].path == raw[i].path
            &&& cache[pid].icon_path == icon_of(raw[i].path)
            &&& cache[pid].volume_bits == match last_volume_set(pid, later) {
                Some(bits) => bits,
                None => volume_or_default(raw[i].volume_bits),
            }
            &&& cache[pid].muted == match last_mute_set(pid, later) {
                Some(flag) => flag,
                None => muted_or_default(raw[i].muted),
            }
        }
}

/// The cache invariant: after any sequence of operations, the cache of a
/// registry that has refreshed at least once is consistent with its most
/// recent refresh and the changes applied since.
pub proof fn lemma_cache_invariant(history: Seq<Operation>, r: int)
    requires
        is_last_refresh(history, r),
    ensures
        is_consistent_with(cache_after(history), history[r]->Refresh_0, history.skip(r + 1)),
{
    let raw = history[r]->Refresh_0;
    let later = history.skip(r + 1);
    let refreshed = history.take(r).push(Operation::Refresh(raw));
    let listing = listing_of(raw);
    let fresh = cache_of(listing);
    let cache = cache_after(history);
    assert(history =~= refreshed + later);
    assert(cache_after(refreshed) == fresh);
    lemma_cache_from_concat(Map::empty(), refreshed, later);
    lemma_patches_keep_entries(fresh, later);
    lemma_cache_of(listing);
    lemma_refreshed_cache(raw);
    assert(cache.dom() == fresh.dom());
    assert forall|pid: u32, i: int| #[trigger] is_last_record_of(listing, pid, i) implies {
        &&& cache[pid].pid == pid
        &&& cache[pid].name == derived_name(raw[i].path)
        &&& cache[pid].path == raw[i].path
        &&& cache[pid].icon_path == icon_of(raw[i].path)
        &&& cache[pid].volume_bits == match last_volume_set(pid, later) {
            Some(bits) => bits,
            None => volume_or_default(raw[i].volume_bits),
        }
        &&& cache[pid].muted == match last_mute_set(pid, later) {
            Some(flag) => flag,
            None => muted_or_default(raw[i].muted),
        }
    } by {
        assert(fresh[pid] == listing[i]);
        lemma_after_changes(listing[i], pid, later);
    }
}

/// The invariant covers every history: a registry that has never refreshed
/// holds the empty cache, and the history of any other has a most recent
/// refresh.
pub proof fn lemma_history_cases(history: Seq<Operation>)
    ensures
        patches_only(history) ==> cache_after(history) == Map::<u32, AudioSessionView>::empty(),
        !patches_only(history) ==> exists|r: int| is_last_refresh(history, r),
    decreases history.len(),
{
    if patches_only(history) {
        lemma_patches_keep_entries(Map::empty(), history);
    } else if history.last() is Refresh {
        assert(is_last_refresh(history, history.len() - 1));
    } else {
        let front = history.drop_last();
        assert(!patches_only(front)) by {
            if patches_only(front) {
                assert forall|k: int| 0 <= k < history.len() implies #[trigger] history[k]
                    is Patch by {
                    if k < front.len() {
                        assert(front[k] is Patch);
                    }
                }
            }
        }
        lemma_history_cases(front);
        let r = choose|r: int| is_last_refresh(front, r);
        let tail = history.skip(r + 1);
        assert forall|k: int| 0 <= k < tail.len() implies #[trigger] tail[k] is Patch by {
            if k < tail.len() - 1 {
                assert(front.skip(r + 1)[k] is Patch);
            }
        }
        assert(is_last_refresh(history, r));
    }
}

/// A volume change that was applied stays visible. The cache shows the new
/// volume for the process at once, if it has an entry for it; and a later
/// refresh whose enumeration still reads that volume for the process lists
/// it, and caches it when that record is the last one of the process.
pub proof fn lemma_volume_change_visible(
    cache: Map<u32, AudioSessionView>,
    pid: u32,
    volume_bits: u32,
    raw: Seq<RawSessionView>,
    i: int,
)
    requires
        0 <= i < raw.len(),
        raw[i].pid == pid,
        raw[i].volume_bits == Some(volume_bits),
    ensures
        cache.contains_key(pid) ==> patched(cache, pid, Change::Volume(volume_bits))[pid].volume_bits
            == volume_bits,
        listing_of(raw)[i].pid == pid,
        listing_of(raw)[i].volume_bits == volume_bits,
        is_last_record_of(listing_of(raw), pid, i) ==> apply_operation(
            patched(cache, pid, Change::Volume(volume_bits)),
            Operation::Refresh(raw),
        )[pid].volume_bits == volume_bits,
{
    lemma_cache_of(listing_of(raw));
}

/// Replacing the last record of a process in a listing replaces the entry of
/// that process in the cache built from it, and touches no other entry.
pub proof fn lemma_cache_of_update(listing: Seq<AudioSessionView>, i: int, record: AudioSessionView)
    requires
        is_last_record_of(listing, record.pid, i),
    ensures
        cache_of(listing.update(i, record)) == cache_of(listing).insert(record.pid, record),
    decreases listing.len(),
{
    let updated = listing.update(i, record);
    let front = listing.drop_last();
    if i == listing.len() - 1 {
        assert(updated.drop_last() =~= front);
    } else {
        assert(updated.drop_last() =~= front.update(i, record));
        assert(is_last_record_of(front, record.pid, i));
        lemma_cache_of_update(front, i, record);
    }
}

/// Patching keeps the cache in step with the audio subsystem. Take a cache
/// that was refreshed from the enumeration `live`, in which no two sessions
/// share a process id, and a change that the subsystem applied to the session
/// at position `i`. If nothing else changed, the next enumeration is `live`
/// with that change at `i`. Then a refresh from it lists the changed value at
/// `i` and every other record as before, and the cache it builds is the
/// patched cache: the change is visible at once and stays visible.
pub proof fn lemma_patch_agrees_with_refresh(live: Seq<RawSessionView>, i: int, change: Change)
    requires
        0 <= i < live.len(),
        pids_of(live).no_duplicates(),
    ensures
        ({
            let next = live.update(i, report_after(live[i], change));
            let before = listing_of(live);
            let after = listing_of(next);
            &&& after.len() == before.len()
            &&& after[i] == apply_change(before[i], change)
            &&& forall|j: int| 0 <= j < live.len() && j != i ==> #[trigger] after[j] == before[j]
            &&& cache_of(after) == patched(cache_of(before), live[i].pid, change)
            &&& change matches Change::Volume(bits) ==> cache_of(after)[live[i].pid].volume_bits
                == bits
            &&& change matches Change::Mute(flag) ==> cache_of(after)[live[i].pid].muted == flag
        }),
{
    let pid = live[i].pid;
    let next = live.update(i, report_after(live[i], change));
    let before = listing_of(live);
    let after = listing_of(next);
    let record = apply_change(before[i], change);
    assert(after =~= before.update(i, record));
    assert(is_last_record_of(before, pid, i)) by {
        assert forall|j: int| i < j < before.len() implies before[j].pid != pid by {
            assert(pids_of(live)[i] == pid);
            assert(pids_of(live)[j] == live[j].pid);
        }
    }
    lemma_cache_of(before);
    lemma_cache_of_update(before, i, record);
    assert(before[i].pid == pid);
}

/// A failed read degrades one field of one record and nothing else: the
/// session is still listed, with silence for a volume that could not be read
/// and unmuted for a mute flag that could not be read, and the record of
/// every other session depends on that session's own report alone.
pub proof fn lemma_failed_reads_degrade(
    raw: Seq<RawSessionView>,
    other: Seq<RawSessionView>,
    i: int,
)
    requires
        0 <= i < raw.len(),
        other.len() == raw.len(),
        forall|j: int| 0 <= j < raw.len() && j != i ==> other[j] == raw[j],
    ensures
        listing_of(raw).len() == raw.len(),
        listing_of(raw)[i].pid == raw[i].pid,
        listing_of(raw)[i].path == raw[i].path,
        raw[i].volume_bits is None ==> listing_of(raw)[i].volume_bits == DEFAULT_VOLUME_BITS,
        raw[i].volume_bits matches Some(bits) ==> listing_of(raw)[i].volume_bits == bits,
        raw[i].muted is None ==> listing_of(raw)[i].muted == DEFAULT_MUTED,
        raw[i].muted matches Some(flag) ==> listing_of(raw)[i].muted == flag,
        forall|j: int|
            0 <= j < raw.len() && j != i ==> #[trigger] listing_of(other)[j] == listing_of(raw)[j],
{
}

} // verus!
