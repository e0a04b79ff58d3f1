//! What holds of whole compaction runs, whatever the driver hands in.
//!
//! A run is seen here as the state in which it began and the sequence of the events that it
//! was given. Nothing is assumed of the events unless a statement says so: they may come in
//! any order and hold any value.
use crate::compaction::{
    begin, begin_at, forced_request, ActionView, CompactionState, EventView, Phase,
};
use crate::error::ErrorView;
use crate::progress::{elapsed_between, notification_due, progress_line, NOTIFY_INTERVAL_NANOS};
use crate::compaction::Property;
use crate::wal::{is_removable, is_wal_segment_name};
use vstd::prelude::*;

verus! {

/// The state of a run that began in `start`, after the first `n` of `events`.
pub open spec fn after<E>(start: CompactionState, events: Seq<EventView<E>>, n: int) -> CompactionState
    decreases n,
{
    if n <= 0 {
        start
    } else {
        after(start, events, n - 1).next(events[n - 1]).0
    }
}

/// The action with which the run answers the event at index `i`.
pub open spec fn response<E>(start: CompactionState, events: Seq<EventView<E>>, i: int) -> ActionView<E> {
    after(start, events, i).next(events[i]).1
}

/// Whether a run may begin in this state: with the listing of a database that is not open
/// yet, with the first name to resolve, or with the wait.
pub open spec fn is_start(state: CompactionState) -> bool {
    &&& state.wf()
    &&& state.phase == Phase::Listing || state.phase == Phase::Resolving(0) || state.phase
        == Phase::Starting
}

/// Whether the action asks something of the engine.
pub open spec fn asks_engine<E>(action: ActionView<E>) -> bool {
    ||| action is ListColumnFamilies
    ||| action is OpenDatabase
    ||| action is ResolveColumnFamily
    ||| action is CompactRange
    ||| action is ReadProperty
}

/// Whether the log is being cleaned up in this phase.
pub open spec fn is_cleanup(phase: Phase) -> bool {
    ||| phase == Phase::OpeningDirectory
    ||| phase == Phase::Scanning
    ||| phase == Phase::Sizing
    ||| phase == Phase::Removing
}

/// The value of a counter that reports no work.
pub open spec fn zero<E>() -> EventView<E> {
    EventView::PropertyRead(Ok(Some(0)))
}

/// Whether the events at `p` and `p + 1` are one poll in which the engine was quiet: the
/// run waited for the counter of pending compactions, and both counters were read as zero.
pub open spec fn is_quiet_poll<E>(start: CompactionState, events: Seq<EventView<E>>, p: int) -> bool {
    &&& 0 <= p
    &&& p + 1 < events.len()
    &&& after(start, events, p).phase == Phase::ReadingPending
    &&& events[p] == zero::<E>()
    &&& events[p + 1] == zero::<E>()
}

/// Both ways of beginning a run give a state in which a run may begin, and neither begins
/// by requesting a compaction.
pub proof fn lemma_runs_begin_at_a_start<E>(
    path: std::path::PathBuf,
    cf_names: Seq<Seq<char>>,
    wait_msg_prefix: Option<Seq<char>>,
    remove_empty_wal_files: bool,
)
    ensures
        is_start(begin::<E>(cf_names, wait_msg_prefix, remove_empty_wal_files).0),
        is_start(begin_at::<E>(path, wait_msg_prefix).0),
        !(begin::<E>(cf_names, wait_msg_prefix, remove_empty_wal_files).1 is CompactRange),
        !(begin_at::<E>(path, wait_msg_prefix).1 is CompactRange),
{
}

/// Every step keeps a state well formed.
pub proof fn lemma_step_keeps_well_formed<E>(state: CompactionState, event: EventView<E>)
    requires
        state.wf(),
    ensures
        state.next(event).0.wf(),
{
}

/// The state of a run is well formed after any events.
pub proof fn lemma_run_keeps_well_formed<E>(
    start: CompactionState,
    events: Seq<EventView<E>>,
    n: int,
)
    requires
        start.wf(),
    ensures
        after(start, events, n).wf(),
    decreases n,
{
    if n > 0 {
        lemma_run_keeps_well_formed(start, events, n - 1);
        lemma_step_keeps_well_formed(after(start, events, n - 1), events[n - 1]);
    }
}

/// A run that has stopped stays stopped, and asks for nothing.
pub proof fn lemma_finished_is_final<E>(state: CompactionState, event: EventView<E>)
    requires
        state.phase == Phase::Finished,
    ensures
        state.next(event) == (state, ActionView::<E>::Stopped),
{
}

/// What the run remembers of the events that brought it where it is.
///
/// While the run waits for the counter of running compactions, the event before was a
/// zero for the pending ones. While the log is cleaned up, a quiet poll lies behind, at
/// the index that is returned, and nothing was asked of the engine since.
proof fn lemma_history<E>(start: CompactionState, events: Seq<EventView<E>>, n: int) -> (p: int)
    requires
        is_start(start),
        0 <= n <= events.len(),
    ensures
        after(start, events, n).phase == Phase::ReadingRunning ==> {
            &&& n >= 1
            &&& after(start, events, n - 1).phase == Phase::ReadingPending
            &&& events[n - 1] == zero::<E>()
        },
        is_cleanup(after(start, events, n).phase) ==> {
            &&& is_quiet_poll(start, events, p)
            &&& p + 2 <= n
            &&& forall|j: int| p + 1 <= j < n ==> !asks_engine(#[trigger] response(start, events, j))
        },
        after(start, events, n).phase == Phase::Sizing ==> {
            &&& n >= 1
            &&& events[n - 1] == EventView::<E>::Entry(Some(Ok(after(start, events, n).entry)))
            &&& is_wal_segment_name(after(start, events, n).entry)
        },
        after(start, events, n).phase == Phase::Removing ==> {
            &&& n >= 2
            &&& events[n - 2] == EventView::<E>::Entry(Some(Ok(after(start, events, n).entry)))
            &&& is_wal_segment_name(after(start, events, n).entry)
            &&& events[n - 1] == EventView::<E>::EntrySize(Ok(0))
        },
    decreases n,
{
    if n == 0 {
        0
    } else {
        let q = lemma_history(start, events, n - 1);
        let before = after(start, events, n - 1);
        let now = after(start, events, n);
        assert(now == before.next(events[n - 1]).0);
        if is_cleanup(now.phase) {
            if before.phase == Phase::ReadingRunning {
                let p = n - 2;
                assert(response(start, events, n - 1) == before.next(events[n - 1]).1);
                assert forall|j: int| p + 1 <= j < n implies !asks_engine(
                    #[trigger] response(start, events, j),
                ) by {
                    assert(j == n - 1);
                }
                p
            } else {
                assert(is_cleanup(before.phase));
                assert(response(start, events, n - 1) == before.next(events[n - 1]).1);
                assert forall|j: int| q + 1 <= j < n implies !asks_engine(
                    #[trigger] response(start, events, j),
                ) by {
                    if j < n - 1 {
                        assert(!asks_engine(response(start, events, j)));
                    }
                }
                q
            }
        } else {
            0
        }
    }
}

/// A run ends well only after a poll in which the engine was quiet.
///
/// If the answer to the event at `i` is to finish with success, then there was a poll,
/// at the index `p` that is returned, in which the counter of pending compactions and the
/// counter of running compactions were both read as zero, one right after the other.
/// After that poll nothing was asked of the engine again: no compaction was requested, and
/// the counters were not read once more.
pub proof fn lemma_success_follows_a_quiet_poll<E>(
    start: CompactionState,
    events: Seq<EventView<E>>,
    i: int,
) -> (p: int)
    requires
        is_start(start),
        0 <= i < events.len(),
        response(start, events, i) == ActionView::<E>::Finish(Ok(())),
    ensures
        is_quiet_poll(start, events, p),
        p + 1 <= i,
        forall|j: int| p + 1 <= j <= i ==> !asks_engine(#[trigger] response(start, events, j)),
{
    let q = lemma_history(start, events, i);
    let before = after(start, events, i);
    if before.phase == Phase::ReadingRunning {
        let p = i - 1;
        assert forall|j: int| p + 1 <= j <= i implies !asks_engine(
            #[trigger] response(start, events, j),
        ) by {
            assert(j == i);
        }
        p
    } else {
        assert(before.phase == Phase::Scanning);
        assert forall|j: int| q + 1 <= j <= i implies !asks_engine(
            #[trigger] response(start, events, j),
        ) by {
            if j < i {
                assert(!asks_engine(response(start, events, j)));
            }
        }
        q
    }
}

/// Whether the run is held up before the name at `k`: it is over, or it waits for a column
/// family that comes no later than that name.
pub open spec fn is_held_up(state: CompactionState, cf_names: Seq<Seq<char>>, k: int) -> bool {
    &&& state.cf_names == cf_names
    &&& match state.phase {
        Phase::Finished => true,
        Phase::Resolving(index) => index <= k,
        _ => false,
    }
}

/// Whether the event tells the truth about the column family that the run waits for, if it
/// waits for one: the column family was found exactly if its name is among `present`.
pub open spec fn answers_truthfully<E>(
    state: CompactionState,
    event: EventView<E>,
    present: Set<Seq<char>>,
) -> bool {
    match (state.phase, event) {
        (Phase::Resolving(index), EventView::ColumnFamilyResolved(found)) => found
            == present.contains(state.cf_names[index as int]),
        _ => true,
    }
}

/// Whether the driver tells the truth about the column families at every event of the run.
pub open spec fn resolves_truthfully<E>(
    start: CompactionState,
    events: Seq<EventView<E>>,
    present: Set<Seq<char>>,
) -> bool {
    forall|j: int|
        0 <= j < events.len() ==> answers_truthfully(
            after(start, events, j),
            #[trigger] events[j],
            present,
        )
}

/// Whether the name at `k` is the first of `cf_names` that is not among `present`.
pub open spec fn is_first_missing(cf_names: Seq<Seq<char>>, present: Set<Seq<char>>, k: int) -> bool {
    &&& 0 <= k < cf_names.len()
    &&& !present.contains(cf_names[k])
    &&& forall|j: int| 0 <= j < k ==> present.contains(#[trigger] cf_names[j])
}

/// A run that is held up before a missing name stays so at a truthful event. It does not
/// request a compaction, and if it gives an outcome, it is the failure that names the
/// missing column family.
proof fn lemma_held_up_step<E>(
    state: CompactionState,
    event: EventView<E>,
    cf_names: Seq<Seq<char>>,
    present: Set<Seq<char>>,
    k: int,
)
    requires
        is_first_missing(cf_names, present, k),
        is_held_up(state, cf_names, k),
        answers_truthfully(state, event, present),
    ensures
        is_held_up(state.next(event).0, cf_names, k),
        !(state.next(event).1 is CompactRange),
        state.next(event).1 is Finish ==> state.next(event).1 == ActionView::<E>::Finish(
            Err(ErrorView::ColumnFamily(cf_names[k])),
        ),
{
    match (state.phase, event) {
        (Phase::Resolving(index), EventView::ColumnFamilyResolved(found)) => {
            if found {
                assert(index != k);
            } else {
                assert(index == k);
            }
        },
        _ => {},
    }
}

/// Where a name is missing, the run never gets past the resolution of the first such
/// name.
proof fn lemma_resolution_is_held_up<E>(
    cf_names: Seq<Seq<char>>,
    wait_msg_prefix: Option<Seq<char>>,
    remove_empty_wal_files: bool,
    present: Set<Seq<char>>,
    k: int,
    events: Seq<EventView<E>>,
    n: int,
)
    requires
        is_first_missing(cf_names, present, k),
        resolves_truthfully(
            begin::<E>(cf_names, wait_msg_prefix, remove_empty_wal_files).0,
            events,
            present,
        ),
        0 <= n <= events.len(),
    ensures
        is_held_up(
            after(begin::<E>(cf_names, wait_msg_prefix, remove_empty_wal_files).0, events, n),
            cf_names,
            k,
        ),
    decreases n,
{
    let start = begin::<E>(cf_names, wait_msg_prefix, remove_empty_wal_files).0;
    if n > 0 {
        lemma_resolution_is_held_up(
            cf_names,
            wait_msg_prefix,
            remove_empty_wal_files,
            present,
            k,
            events,
            n - 1,
        );
        assert(answers_truthfully(after(start, events, n - 1), events[n - 1], present));
        lemma_held_up_step(after(start, events, n - 1), events[n - 1], cf_names, present, k);
    }
}

/// Resolution is all or nothing.
///
/// Let the name at `k` be the first of the names that the database does not have, and let
/// the driver tell the truth about the column families; nothing else is asked of the
/// events. Then no compaction is ever requested, for any name: not in answer to the event
/// at `i`, whichever it is. And if the run gives an outcome, it is the failure that names
/// the column family at `k`.
pub proof fn lemma_missing_column_family_prevents_compaction<E>(
    cf_names: Seq<Seq<char>>,
    wait_msg_prefix: Option<Seq<char>>,
    remove_empty_wal_files: bool,
    present: Set<Seq<char>>,
    k: int,
    events: Seq<EventView<E>>,
    i: int,
)
    requires
        is_first_missing(cf_names, present, k),
        resolves_truthfully(
            begin::<E>(cf_names, wait_msg_prefix, remove_empty_wal_files).0,
            events,
            present,
        ),
        0 <= i < events.len(),
    ensures
        ({
            let run = begin::<E>(cf_names, wait_msg_prefix, remove_empty_wal_files);
            let answer = response(run.0, events, i);
            &&& !(run.1 is CompactRange)
            &&& !(answer is CompactRange)
            &&& answer is Finish ==> answer == ActionView::<E>::Finish(
                Err(ErrorView::ColumnFamily(cf_names[k])),
            )
        }),
{
    let start = begin::<E>(cf_names, wait_msg_prefix, remove_empty_wal_files).0;
    lemma_resolution_is_held_up(
        cf_names,
        wait_msg_prefix,
        remove_empty_wal_files,
        present,
        k,
        events,
        i,
    );
    assert(answers_truthfully(after(start, events, i), events[i], present));
    lemma_held_up_step(after(start, events, i), events[i], cf_names, present, k);
}

/// A missing column family is reported as soon as it is looked up.
///
/// Let the name at `k` be the first that the database does not have, and let the driver
/// answer each of the first `k + 1` requests with whether the column family was found.
/// Then the names before `k` are resolved one after the other, and the run ends on the
/// event at `k` with the failure that names the column family at `k`.
pub proof fn lemma_missing_column_family_is_reported<E>(
    cf_names: Seq<Seq<char>>,
    wait_msg_prefix: Option<Seq<char>>,
    remove_empty_wal_files: bool,
    present: Set<Seq<char>>,
    k: int,
    events: Seq<EventView<E>>,
    n: int,
)
    requires
        cf_names.len() <= usize::MAX,
        is_first_missing(cf_names, present, k),
        k < events.len(),
        forall|j: int|
            0 <= j <= k ==> #[trigger] events[j] == EventView::<E>::ColumnFamilyResolved(
                present.contains(cf_names[j]),
            ),
        0 <= n <= k,
    ensures
        ({
            let start = begin::<E>(cf_names, wait_msg_prefix, remove_empty_wal_files).0;
            &&& after(start, events, n) == start.at(Phase::Resolving(n as usize))
            &&& n < k ==> response(start, events, n) == ActionView::<E>::ResolveColumnFamily(
                cf_names[n + 1],
            )
            &&& n == k ==> response(start, events, n) == ActionView::<E>::Finish(
                Err(ErrorView::ColumnFamily(cf_names[k])),
            )
        }),
    decreases n,
{
    let start = begin::<E>(cf_names, wait_msg_prefix, remove_empty_wal_files).0;
    if n > 0 {
        lemma_missing_column_family_is_reported(
            cf_names,
            wait_msg_prefix,
            remove_empty_wal_files,
            present,
            k,
            events,
            n - 1,
        );
        assert(events[n - 1] == EventView::<E>::ColumnFamilyResolved(
            present.contains(cf_names[n - 1]),
        ));
        assert(present.contains(cf_names[n - 1]));
    } else {
        assert(start == start.at(Phase::Resolving(0)));
    }
    assert(events[n] == EventView::<E>::ColumnFamilyResolved(present.contains(cf_names[n])));
    if n < k {
        assert(present.contains(cf_names[n]));
    }
}

/// Only empty log segments are removed.
///
/// If the answer to the event at `i` is to remove an entry, then the event before it gave
/// the name of that entry, the name is that of a log segment, and the event at `i` gave its
/// length as zero. The entry that is removed is the one that was read last.
pub proof fn lemma_only_empty_log_segments_are_removed<E>(
    start: CompactionState,
    events: Seq<EventView<E>>,
    i: int,
)
    requires
        is_start(start),
        0 <= i < events.len(),
        response(start, events, i) is RemoveEntry,
    ensures
        i >= 1,
        events[i - 1] == EventView::<E>::Entry(Some(Ok(after(start, events, i + 1).entry))),
        is_wal_segment_name(after(start, events, i + 1).entry),
        events[i] == EventView::<E>::EntrySize(Ok(0)),
{
    let _ = lemma_history(start, events, i);
    let _ = lemma_history(start, events, i + 1);
}

/// A file that is no log segment, or that holds anything, is passed over.
///
/// An entry whose name is not that of a log segment is not even measured: the next entry
/// is asked for. An entry whose length is not zero is not removed: the next entry is
/// asked for. In both cases nothing is asked about the entry again.
pub proof fn lemma_other_files_are_kept<E>(state: CompactionState, event: EventView<E>)
    ensures
        state.next(event).1 is RemoveEntry <==> state.phase == Phase::Sizing && event
            == EventView::<E>::EntrySize(Ok(0)),
        state.next(event).1 is EntrySize <==> state.phase == Phase::Scanning && (
        event matches EventView::Entry(Some(Ok(name))) && is_wal_segment_name(name)),
        state.phase == Phase::Scanning && (event matches EventView::Entry(Some(Ok(name)))
            && !is_wal_segment_name(name)) ==> state.next(event) == state.scan::<E>(),
        state.phase == Phase::Sizing && (event matches EventView::EntrySize(Ok(len)) && len
            != 0) ==> state.next(event) == state.scan::<E>(),
{
}

/// The compactions are requested once all names are resolved, one for each, in order.
///
/// Let the database have every one of the names, and let the driver answer each request in
/// turn: the resolutions first, then the requests for compaction. Then the answer to the
/// event at `i` is, for each of the first names but the last, to resolve the next name;
/// after that, for each name, to request the compaction of the column family with the
/// number of that name, exclusive, over all keys and with the bottommost level forced;
/// and at last to read the clock, with which the wait begins.
pub proof fn lemma_every_column_family_is_compacted_in_order<E>(
    cf_names: Seq<Seq<char>>,
    wait_msg_prefix: Option<Seq<char>>,
    remove_empty_wal_files: bool,
    events: Seq<EventView<E>>,
    i: int,
)
    requires
        cf_names.len() > 0,
        cf_names.len() <= usize::MAX,
        events.len() == 2 * cf_names.len(),
        forall|j: int|
            0 <= j < cf_names.len() ==> #[trigger] events[j]
                == EventView::<E>::ColumnFamilyResolved(true),
        forall|j: int|
            cf_names.len() <= j < 2 * cf_names.len() ==> #[trigger] events[j]
                == EventView::<E>::CompactionRequested,
        0 <= i < events.len(),
    ensures
        ({
            let start = begin::<E>(cf_names, wait_msg_prefix, remove_empty_wal_files).0;
            let count = cf_names.len() as int;
            &&& i < count ==> after(start, events, i) == start.at(Phase::Resolving(i as usize))
            &&& i >= count ==> after(start, events, i) == start.at(
                Phase::Requesting((i - count) as usize),
            )
            &&& i + 1 < count ==> response(start, events, i)
                == ActionView::<E>::ResolveColumnFamily(cf_names[i + 1])
            &&& count <= i + 1 < 2 * count ==> response(start, events, i)
                == ActionView::<E>::CompactRange((i + 1 - count) as usize, forced_request())
            &&& i + 1 == 2 * count ==> response(start, events, i) == ActionView::<E>::ReadClock
        }),
    decreases i,
{
    let start = begin::<E>(cf_names, wait_msg_prefix, remove_empty_wal_files).0;
    let count = cf_names.len() as int;
    if i > 0 {
        lemma_every_column_family_is_compacted_in_order(
            cf_names,
            wait_msg_prefix,
            remove_empty_wal_files,
            events,
            i - 1,
        );
        assert(after(start, events, i) == after(start, events, i - 1).next(events[i - 1]).0);
        if i - 1 < count {
            assert(events[i - 1] == EventView::<E>::ColumnFamilyResolved(true));
        } else {
            assert(events[i - 1] == EventView::<E>::CompactionRequested);
        }
    } else {
        assert(start == start.at(Phase::Resolving(0)));
    }
    if i < count {
        assert(events[i] == EventView::<E>::ColumnFamilyResolved(true));
    } else {
        assert(events[i] == EventView::<E>::CompactionRequested);
    }
}

/// A quiet engine ends the wait at once.
///
/// Let the run wait for the clock with which the wait begins. If the clock is read and
/// both counters are then read as zero, the run neither sleeps nor reports: it goes on to
/// clean up the log if that was asked for, and ends well if not. Without the clean-up
/// that is the whole run after the requests, and its outcome is success.
pub proof fn lemma_quiet_engine_ends_the_wait<E>(state: CompactionState, now: u64)
    requires
        state.phase == Phase::Starting,
    ensures
        ({
            let polling = state.next(EventView::<E>::Clock(now));
            let half = polling.0.next(zero::<E>());
            let done = half.0.next(zero::<E>());
            &&& polling.1 == ActionView::<E>::ReadProperty(Property::CompactionPending)
            &&& half.1 == ActionView::<E>::ReadProperty(Property::NumRunningCompactions)
            &&& state.remove_empty_wal_files ==> done.1 == ActionView::<E>::ReadDirectory
            &&& !state.remove_empty_wal_files ==> done.1 == ActionView::<E>::Finish(Ok(()))
                && done.0.phase == Phase::Finished
        }),
{
}

/// A clean-up that finds no entry ends the run well, and one that finds only files that
/// stay does too.
pub proof fn lemma_clean_up_ends_well<E>(state: CompactionState, name: Seq<u8>, len: u64)
    requires
        state.phase == Phase::OpeningDirectory,
        !is_removable(name, len),
    ensures
        ({
            let scanning = state.next(EventView::<E>::DirectoryRead(Ok(())));
            let listed = scanning.0.next(EventView::<E>::Entry(Some(Ok(name))));
            let kept = if is_wal_segment_name(name) {
                listed.0.next(EventView::<E>::EntrySize(Ok(len)))
            } else {
                listed
            };
            &&& scanning.1 == ActionView::<E>::NextEntry
            &&& scanning.0.next(EventView::<E>::Entry(None)).1 == ActionView::<E>::Finish(Ok(()))
            &&& kept.1 == ActionView::<E>::NextEntry
            &&& kept.0.next(EventView::<E>::Entry(None)).1 == ActionView::<E>::Finish(Ok(()))
        }),
{
}

/// Whether the run is past the beginning of the wait in this phase.
pub open spec fn is_waiting_or_later(phase: Phase) -> bool {
    ||| phase == Phase::ReadingPending
    ||| phase == Phase::ReadingRunning
    ||| phase == Phase::Sleeping
    ||| phase == Phase::Checking
    ||| phase == Phase::Notifying
    ||| is_cleanup(phase)
    ||| phase == Phase::Finished
}

/// A progress line is written exactly when one is due.
///
/// The run asks for a line only in answer to a clock reading after a pause, and only if
/// more than a second has passed since the reading at which the last line was due, or
/// since the wait began. The line tells the time since the wait began, and the reading
/// becomes the one from which the next second is counted. A run without a prefix never
/// gets there: after a pause it polls again at once.
pub proof fn lemma_progress_is_reported_when_due<E>(state: CompactionState, event: EventView<E>)
    requires
        state.wf(),
    ensures
        state.next(event).1 is Notify <==> state.phase == Phase::Checking && (
        event matches EventView::Clock(now) && notification_due(state.last_logged, now)),
        state.next(event).1 is Notify ==> (event matches EventView::Clock(now) && state.next(
            event,
        ) == (
            CompactionState { last_logged: now, phase: Phase::Notifying, ..state },
            ActionView::<E>::Notify(
                progress_line(state.wait_msg_prefix->0, elapsed_between(state.started, now)),
            ),
        )),
        state.phase == Phase::Sleeping && state.wait_msg_prefix is None ==> state.next(
            EventView::<E>::Slept,
        ) == state.poll::<E>(),
{
}

/// Between a progress line and the next, the run keeps the reading at which the first was
/// due.
proof fn lemma_last_line_is_remembered<E>(
    start: CompactionState,
    events: Seq<EventView<E>>,
    i: int,
    n: int,
)
    requires
        0 <= i < n <= events.len(),
        response(start, events, i) is Notify,
        forall|k: int| i < k < n ==> !(#[trigger] response(start, events, k) is Notify),
    ensures
        events[i] matches EventView::Clock(now) && after(start, events, n).last_logged == now,
        is_waiting_or_later(after(start, events, n).phase),
    decreases n,
{
    if n > i + 1 {
        lemma_last_line_is_remembered(start, events, i, n - 1);
        assert(!(response(start, events, n - 1) is Notify));
    }
}

/// Progress is reported once a second at most.
///
/// If the run asks for a progress line in answer to the event at `i`, and for the next
/// one in answer to the event at `j`, then both events are clock readings, and the second
/// reading is more than a second later than the first. However often the engine is
/// polled in between, no line is written.
pub proof fn lemma_progress_lines_are_a_second_apart<E>(
    start: CompactionState,
    events: Seq<EventView<E>>,
    i: int,
    j: int,
)
    requires
        0 <= i < j < events.len(),
        response(start, events, i) is Notify,
        response(start, events, j) is Notify,
        forall|k: int| i < k < j ==> !(#[trigger] response(start, events, k) is Notify),
    ensures
        events[i] matches EventView::Clock(first) && (events[j] matches EventView::Clock(second)
            && elapsed_between(first, second) > NOTIFY_INTERVAL_NANOS),
{
    lemma_last_line_is_remembered(start, events, i, j);
}

} // verus!
