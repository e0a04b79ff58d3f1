use std::collections::VecDeque;
use std::path::PathBuf;

use rocksdb_utils_lookup::compaction::{
    Action, BottommostLevelCompaction, Compaction, CompactionRequest, Event, Phase, Property,
};
use rocksdb_utils_lookup::{force_compaction, force_compaction_cf, Error};

/// An engine, a clock and a directory that exist only in memory.
struct World {
    /// What listing the column families at the path gives.
    listing: Result<Vec<String>, String>,
    /// What opening the database gives.
    opening: Result<(), String>,
    /// The column families of the open database.
    column_families: Vec<String>,
    /// What the reads of the pending counter give, in order; zero once used up.
    pending: VecDeque<Result<Option<u64>, String>>,
    /// What the reads of the running counter give, in order; zero once used up.
    running: VecDeque<Result<Option<u64>, String>>,
    /// The clock, in nanoseconds.
    clock: u64,
    /// Whether the directory can be opened.
    directory_fails: bool,
    /// The files of the directory: name, length, and whether reading the length or removing
    /// the file fails.
    files: Vec<(Vec<u8>, Result<u64, ()>, bool)>,
    /// The index of the next file to list, and of the one at hand.
    cursor: usize,
    /// What was done, in order.
    log: Vec<String>,
    /// The handles that were resolved.
    handles: Vec<String>,
    /// The compactions that were requested: the name of the column family and the request.
    compactions: Vec<(String, CompactionRequest)>,
    /// The progress lines that were written.
    lines: Vec<String>,
    /// The names of the files that were removed.
    removed: Vec<Vec<u8>>,
}

fn names(list: &[&str]) -> Vec<String> {
    list.iter().map(|s| s.to_string()).collect()
}

fn world(column_families: &[&str]) -> World {
    World {
        listing: Ok(names(column_families)),
        opening: Ok(()),
        column_families: names(column_families),
        pending: VecDeque::new(),
        running: VecDeque::new(),
        clock: 0,
        directory_fails: false,
        files: Vec::new(),
        cursor: 0,
        log: Vec::new(),
        handles: Vec::new(),
        compactions: Vec::new(),
        lines: Vec::new(),
        removed: Vec::new(),
    }
}

fn io_error(text: &str) -> std::io::Error {
    std::io::Error::new(std::io::ErrorKind::Other, text.to_string())
}

/// Does what the action asks for, and tells what happened.
fn perform(world: &mut World, action: Action<String>) -> Result<Event<String>, Result<(), Error<String>>> {
    let event = match action {
        Action::ListColumnFamilies => {
            world.log.push("list".to_string());
            Event::ColumnFamiliesListed(world.listing.clone())
        }
        Action::OpenDatabase(column_families) => {
            world.log.push(format!("open {}", column_families.join(",")));
            Event::DatabaseOpened(world.opening.clone())
        }
        Action::ResolveColumnFamily(name) => {
            world.log.push(format!("resolve {}", name));
            let found = world.column_families.contains(&name);
            if found {
                world.handles.push(name);
            }
            Event::ColumnFamilyResolved(found)
        }
        Action::CompactRange(index, request) => {
            world.log.push(format!("compact {}", index));
            let name = world.handles[index].clone();
            world.compactions.push((name, request));
            Event::CompactionRequested
        }
        Action::ReadClock => {
            world.log.push("clock".to_string());
            Event::Clock(world.clock)
        }
        Action::ReadProperty(Property::CompactionPending) => {
            world.log.push("pending".to_string());
            Event::PropertyRead(world.pending.pop_front().unwrap_or(Ok(Some(0))))
        }
        Action::ReadProperty(Property::NumRunningCompactions) => {
            world.log.push("running".to_string());
            Event::PropertyRead(world.running.pop_front().unwrap_or(Ok(Some(0))))
        }
        Action::Sleep(millis) => {
            world.log.push(format!("sleep {}", millis));
            world.clock += millis * 1_000_000;
            Event::Slept
        }
        Action::Notify(line) => {
            world.log.push("notify".to_string());
            world.lines.push(line);
            Event::Notified
        }
        Action::ReadDirectory => {
            world.log.push("read_dir".to_string());
            world.cursor = 0;
            if world.directory_fails {
                Event::DirectoryRead(Err(io_error("no directory")))
            } else {
                Event::DirectoryRead(Ok(()))
            }
        }
        Action::NextEntry => {
            world.log.push("next".to_string());
            let listed: Vec<Vec<u8>> = world.files.iter().map(|f| f.0.clone()).collect();
            if world.cursor < listed.len() {
                world.cursor += 1;
                Event::Entry(Some(Ok(listed[world.cursor - 1].clone())))
            } else {
                Event::Entry(None)
            }
        }
        Action::EntrySize => {
            world.log.push("size".to_string());
            match world.files[world.cursor - 1].1 {
                Ok(len) => Event::EntrySize(Ok(len)),
                Err(()) => Event::EntrySize(Err(io_error("no metadata"))),
            }
        }
        Action::RemoveEntry => {
            world.log.push("remove".to_string());
            if world.files[world.cursor - 1].2 {
                Event::EntryRemoved(Err(io_error("not removed")))
            } else {
                let name = world.files[world.cursor - 1].0.clone();
                world.removed.push(name);
                Event::EntryRemoved(Ok(()))
            }
        }
        Action::Finish(outcome) => return Err(outcome),
        Action::Stopped => panic!("the run stopped without an outcome"),
    };
    Ok(event)
}

/// Runs to the end, and gives the outcome.
fn drive(world: &mut World, begun: (Compaction<String>, Action<String>)) -> Result<(), Error<String>> {
    let (mut run, mut action) = begun;
    for _ in 0..10_000 {
        let event = match perform(world, action) {
            Ok(event) => event,
            Err(outcome) => {
                assert!(run.is_finished());
                return outcome;
            }
        };
        let next = run.step(event);
        run = next.0;
        action = next.1;
    }
    panic!("the run did not end");
}

fn file(name: &str, len: u64) -> (Vec<u8>, Result<u64, ()>, bool) {
    (name.as_bytes().to_vec(), Ok(len), false)
}

fn forced() -> CompactionRequest {
    CompactionRequest {
        exclusive_manual_compaction: true,
        bottommost_level_compaction: BottommostLevelCompaction::Force,
        whole_key_range: true,
    }
}

#[test]
fn smoke_test_force_compaction() {
    let mut world = world(&["foo", "bar"]);
    world.files = vec![file("000004.log", 0), file("CURRENT", 16)];

    let outcome = drive(&mut world, force_compaction(PathBuf::from("rocksdb"), Some("msg")));

    assert!(outcome.is_ok());
    assert_eq!(
        world.log,
        [
            "list", "open foo,bar", "resolve foo", "resolve bar", "compact 0", "compact 1",
            "clock", "pending", "running", "read_dir", "next", "size", "remove", "next", "next",
        ]
    );
    assert_eq!(world.removed, [b"000004.log".to_vec()]);
}

#[test]
fn smoke_test_force_compaction_cf() {
    let mut world = world(&["foo", "bar"]);

    let outcome = drive(&mut world, force_compaction_cf(names(&["foo", "bar"]), Some("msg"), true));

    assert!(outcome.is_ok());
    assert_eq!(world.compactions, [("foo".to_string(), forced()), ("bar".to_string(), forced())]);
    // Both counters were read as zero in the last poll, and not read again.
    let last_read = world.log.iter().rposition(|a| a == "running").unwrap();
    assert_eq!(world.log[last_read - 1], "pending");
    assert!(world.log[last_read + 1..].iter().all(|a| a != "pending" && a != "compact"));
    assert!(world.pending.is_empty() && world.running.is_empty());
}

#[test]
fn first_action_resolves_the_first_name() {
    let (run, action) = force_compaction_cf::<String>(names(&["foo", "bar"]), None, false);
    assert_eq!(run.phase(), Phase::Resolving(0));
    assert!(!run.is_finished());
    assert!(matches!(action, Action::ResolveColumnFamily(name) if name == "foo"));
}

#[test]
fn without_names_the_run_begins_with_the_wait() {
    let (run, action) = force_compaction_cf::<String>(Vec::new(), None, false);
    assert_eq!(run.phase(), Phase::Starting);
    assert!(matches!(action, Action::ReadClock));

    let mut world = world(&[]);
    let outcome = drive(&mut world, force_compaction_cf(Vec::new(), None, false));
    assert!(outcome.is_ok());
    assert_eq!(world.log, ["clock", "pending", "running"]);
}

#[test]
fn compactions_are_requested_in_the_order_of_the_names() {
    let mut world = world(&["a", "b", "c", "d"]);
    let outcome = drive(&mut world, force_compaction_cf(names(&["c", "a", "d"]), None, false));
    assert!(outcome.is_ok());
    assert_eq!(
        world.log,
        [
            "resolve c", "resolve a", "resolve d", "compact 0", "compact 1", "compact 2", "clock",
            "pending", "running",
        ]
    );
    assert_eq!(
        world.compactions,
        [("c".to_string(), forced()), ("a".to_string(), forced()), ("d".to_string(), forced())]
    );
}

#[test]
fn the_request_is_exclusive_and_forces_the_bottommost_level() {
    let (run, _) = force_compaction_cf::<String>(names(&["foo"]), None, false);
    let (run, action) = run.step(Event::ColumnFamilyResolved(true));
    assert_eq!(run.phase(), Phase::Requesting(0));
    match action {
        Action::CompactRange(index, request) => {
            assert_eq!(index, 0);
            assert!(request.exclusive_manual_compaction);
            assert_eq!(request.bottommost_level_compaction, BottommostLevelCompaction::Force);
            assert!(request.whole_key_range);
        }
        other => panic!("unexpected action {:?}", other),
    }
}

#[test]
fn a_missing_column_family_fails_before_anything_is_compacted() {
    let mut world = world(&["foo", "bar"]);
    let outcome =
        drive(&mut world, force_compaction_cf(names(&["foo", "nope", "bar", "nada"]), Some("msg"), true));
    assert!(matches!(outcome, Err(Error::ColumnFamily(name)) if name == "nope"));
    assert_eq!(world.log, ["resolve foo", "resolve nope"]);
    assert!(world.compactions.is_empty());
    assert!(world.removed.is_empty());
}

#[test]
fn a_missing_first_column_family_is_named() {
    let mut world = world(&["foo"]);
    let outcome = drive(&mut world, force_compaction_cf(names(&["bar", "foo"]), None, false));
    assert!(matches!(outcome, Err(Error::ColumnFamily(name)) if name == "bar"));
    assert_eq!(world.log, ["resolve bar"]);
}

#[test]
fn the_run_waits_while_compactions_are_pending_or_running() {
    let mut world = world(&["foo"]);
    world.pending = VecDeque::from(vec![Ok(Some(1)), Ok(Some(0)), Ok(Some(0))]);
    world.running = VecDeque::from(vec![Ok(Some(3)), Ok(Some(0))]);
    let outcome = drive(&mut world, force_compaction_cf(names(&["foo"]), None, false));
    assert!(outcome.is_ok());
    assert_eq!(
        world.log,
        [
            "resolve foo", "compact 0", "clock", "pending", "sleep 100", "pending", "running",
            "sleep 100", "pending", "running",
        ]
    );
    assert!(world.lines.is_empty());
}

#[test]
fn the_running_counter_is_not_read_while_compactions_are_pending() {
    let mut world = world(&["foo"]);
    world.pending = VecDeque::from(vec![Ok(Some(7))]);
    world.running = VecDeque::from(vec![Err("never read".to_string())]);
    let (mut run, mut action) = force_compaction_cf::<String>(names(&["foo"]), None, false);
    for _ in 0..4 {
        let event = perform(&mut world, action).unwrap();
        let next = run.step(event);
        run = next.0;
        action = next.1;
    }
    assert_eq!(world.log, ["resolve foo", "compact 0", "clock", "pending"]);
    assert_eq!(run.phase(), Phase::Sleeping);
    assert!(matches!(action, Action::Sleep(100)));
    assert_eq!(world.running.len(), 1);
}

#[test]
fn progress_is_reported_once_a_second_at_most() {
    let mut world = world(&["foo"]);
    world.clock = 5_000_000_000;
    world.pending = (0..25).map(|_| Ok(Some(1))).collect();
    let outcome = drive(&mut world, force_compaction_cf(names(&["foo"]), Some("msg"), false));
    assert!(outcome.is_ok());
    // 25 pauses of 100 ms: a line is due when more than a second has passed since the
    // last one, which is after the 11th and after the 22nd pause.
    assert_eq!(world.log.iter().filter(|a| a.as_str() == "sleep 100").count(), 25);
    assert_eq!(
        world.lines,
        [
            "msgstill waiting for compaction (since 1.1s)",
            "msgstill waiting for compaction (since 2.2s)",
        ]
    );
}

#[test]
fn without_a_prefix_nothing_is_reported_and_the_clock_is_read_once() {
    let mut world = world(&["foo"]);
    world.pending = (0..30).map(|_| Ok(Some(1))).collect();
    let outcome = drive(&mut world, force_compaction_cf(names(&["foo"]), None, false));
    assert!(outcome.is_ok());
    assert!(world.lines.is_empty());
    assert_eq!(world.log.iter().filter(|a| a.as_str() == "clock").count(), 1);
    assert_eq!(world.log.iter().filter(|a| a.as_str() == "notify").count(), 0);
}

#[test]
fn a_progress_line_is_due_only_after_more_than_a_second() {
    let (run, _) = force_compaction_cf::<String>(Vec::new(), Some("p: "), false);
    let (run, _) = run.step(Event::Clock(1_000));
    let (run, action) = run.step(Event::PropertyRead(Ok(Some(1))));
    assert!(matches!(action, Action::Sleep(100)));
    let (run, action) = run.step(Event::Slept);
    assert_eq!(run.phase(), Phase::Checking);
    assert!(matches!(action, Action::ReadClock));
    // Exactly one second: not yet.
    let (run, action) = run.step(Event::Clock(1_000_001_000));
    assert_eq!(run.phase(), Phase::ReadingPending);
    assert!(matches!(action, Action::ReadProperty(Property::CompactionPending)));
    let (run, _) = run.step(Event::PropertyRead(Ok(Some(1))));
    let (run, _) = run.step(Event::Slept);
    // One nanosecond more: due, and the line tells the time since the wait began.
    let (run, action) = run.step(Event::Clock(1_000_001_001));
    assert_eq!(run.phase(), Phase::Notifying);
    assert!(matches!(
        action,
        Action::Notify(line) if line == "p: still waiting for compaction (since 1.000000001s)"
    ));
    let (run, action) = run.step(Event::Notified);
    assert_eq!(run.phase(), Phase::ReadingPending);
    assert!(matches!(action, Action::ReadProperty(Property::CompactionPending)));
    // The second is counted from the last line, the elapsed time from the beginning.
    let (run, _) = run.step(Event::PropertyRead(Ok(Some(1))));
    let (run, _) = run.step(Event::Slept);
    let (run, _) = run.step(Event::Clock(2_000_001_001));
    assert_eq!(run.phase(), Phase::ReadingPending);
    let (run, _) = run.step(Event::PropertyRead(Ok(Some(1))));
    let (run, _) = run.step(Event::Slept);
    let (_, action) = run.step(Event::Clock(2_500_001_000));
    assert!(matches!(
        action,
        Action::Notify(line) if line == "p: still waiting for compaction (since 2.5s)"
    ));
}

#[test]
fn a_clock_that_runs_backwards_counts_as_no_time() {
    let (run, _) = force_compaction_cf::<String>(Vec::new(), Some("p"), false);
    let (run, _) = run.step(Event::Clock(9_000_000_000));
    let (run, _) = run.step(Event::PropertyRead(Ok(Some(1))));
    let (run, _) = run.step(Event::Slept);
    let (run, action) = run.step(Event::Clock(0));
    assert_eq!(run.phase(), Phase::ReadingPending);
    assert!(matches!(action, Action::ReadProperty(Property::CompactionPending)));
}

#[test]
fn a_failing_property_read_is_a_property_access_error() {
    let mut world = world(&["foo"]);
    world.pending = VecDeque::from(vec![Err("boom".to_string())]);
    let outcome = drive(&mut world, force_compaction_cf(names(&["foo"]), None, true));
    assert!(matches!(outcome, Err(Error::PropertyAccess(cause)) if cause == "boom"));
    assert_eq!(world.compactions.len(), 1);

    let mut world = self::world(&["foo"]);
    world.running = VecDeque::from(vec![Err("bang".to_string())]);
    let outcome = drive(&mut world, force_compaction_cf(names(&["foo"]), None, true));
    assert!(matches!(outcome, Err(Error::PropertyAccess(cause)) if cause == "bang"));
    assert!(!world.log.contains(&"read_dir".to_string()));
}

#[test]
fn a_property_without_a_value_is_named() {
    let mut world = world(&["foo"]);
    world.pending = VecDeque::from(vec![Ok(None)]);
    let outcome = drive(&mut world, force_compaction_cf(names(&["foo"]), None, true));
    assert!(matches!(outcome, Err(Error::PropertyNotSet(name)) if name == "COMPACTION_PENDING"));

    let mut world = self::world(&["foo"]);
    world.running = VecDeque::from(vec![Ok(None)]);
    let outcome = drive(&mut world, force_compaction_cf(names(&["foo"]), None, true));
    assert!(
        matches!(outcome, Err(Error::PropertyNotSet(name)) if name == "NUM_RUNNING_COMPACTIONS")
    );
}

#[test]
fn property_names() {
    assert_eq!(Property::CompactionPending.name(), "COMPACTION_PENDING");
    assert_eq!(Property::NumRunningCompactions.name(), "NUM_RUNNING_COMPACTIONS");
}

#[test]
fn only_empty_log_segments_are_removed() {
    let mut world = world(&["foo"]);
    world.files = vec![
        file("000003.log", 0),
        file("000005.log", 4096),
        file("000007.sst", 0),
        file("LOCK", 0),
        file(".log", 0),
        file("000009.log", 0),
        file("OPTIONS-000011", 7_000),
    ];
    let outcome = drive(&mut world, force_compaction_cf(names(&["foo"]), None, true));
    assert!(outcome.is_ok());
    assert_eq!(world.removed, [b"000003.log".to_vec(), b"000009.log".to_vec()]);
    // Only the three log segments were measured.
    assert_eq!(world.log.iter().filter(|a| a.as_str() == "size").count(), 3);
    assert_eq!(world.log.iter().filter(|a| a.as_str() == "remove").count(), 2);
}

#[test]
fn the_directory_is_left_alone_unless_cleanup_is_asked_for() {
    let mut world = world(&["foo"]);
    world.files = vec![file("000003.log", 0)];
    let outcome = drive(&mut world, force_compaction_cf(names(&["foo"]), None, false));
    assert!(outcome.is_ok());
    assert!(world.removed.is_empty());
    assert!(!world.log.contains(&"read_dir".to_string()));
}

#[test]
fn a_directory_that_cannot_be_listed_is_a_wal_removal_error() {
    let mut world = world(&["foo"]);
    world.directory_fails = true;
    let outcome = drive(&mut world, force_compaction_cf(names(&["foo"]), None, true));
    assert!(matches!(outcome, Err(Error::WalRemoval(cause)) if cause.to_string() == "no directory"));
}

#[test]
fn an_unreadable_length_aborts_the_scan() {
    let mut world = world(&["foo"]);
    world.files = vec![
        file("000003.log", 0),
        (b"000005.log".to_vec(), Err(()), false),
        file("000009.log", 0),
    ];
    let outcome = drive(&mut world, force_compaction_cf(names(&["foo"]), None, true));
    assert!(matches!(outcome, Err(Error::WalRemoval(cause)) if cause.to_string() == "no metadata"));
    assert_eq!(world.removed, [b"000003.log".to_vec()]);
}

#[test]
fn a_segment_that_cannot_be_removed_aborts_the_scan() {
    let mut world = world(&["foo"]);
    world.files = vec![(b"000003.log".to_vec(), Ok(0), true), file("000009.log", 0)];
    let outcome = drive(&mut world, force_compaction_cf(names(&["foo"]), None, true));
    assert!(matches!(outcome, Err(Error::WalRemoval(cause)) if cause.to_string() == "not removed"));
    assert!(world.removed.is_empty());
}

#[test]
fn an_unreadable_entry_aborts_the_scan() {
    let (run, _) = force_compaction_cf::<String>(Vec::new(), None, true);
    let (run, _) = run.step(Event::Clock(0));
    let (run, _) = run.step(Event::PropertyRead(Ok(Some(0))));
    let (run, action) = run.step(Event::PropertyRead(Ok(Some(0))));
    assert!(matches!(action, Action::ReadDirectory));
    let (run, action) = run.step(Event::DirectoryRead(Ok(())));
    assert!(matches!(action, Action::NextEntry));
    let (run, action) = run.step(Event::Entry(Some(Err(io_error("bad entry")))));
    assert!(run.is_finished());
    assert!(matches!(
        action,
        Action::Finish(Err(Error::WalRemoval(cause))) if cause.to_string() == "bad entry"
    ));
}

#[test]
fn compaction_by_path_always_cleans_the_log() {
    let (run, action) = force_compaction::<String>(PathBuf::from("db"), None);
    assert_eq!(run.phase(), Phase::Listing);
    assert!(matches!(action, Action::ListColumnFamilies));

    let mut world = world(&["default", "meta"]);
    world.files = vec![file("000001.log", 0), file("000002.log", 1)];
    let outcome = drive(&mut world, force_compaction(PathBuf::from("db"), None));
    assert!(outcome.is_ok());
    assert_eq!(world.log[1], "open default,meta");
    assert_eq!(
        world.compactions,
        [("default".to_string(), forced()), ("meta".to_string(), forced())]
    );
    assert_eq!(world.removed, [b"000001.log".to_vec()]);
}

#[test]
fn a_path_that_cannot_be_listed_is_an_open_error() {
    let mut world = world(&[]);
    world.listing = Err("no such database".to_string());
    let outcome = drive(&mut world, force_compaction(PathBuf::from("/data/db"), Some("msg")));
    match outcome {
        Err(Error::Open(path, cause)) => {
            assert_eq!(path, PathBuf::from("/data/db"));
            assert_eq!(cause, "no such database");
        }
        other => panic!("unexpected outcome {:?}", other),
    }
    assert_eq!(world.log, ["list"]);
}

#[test]
fn a_database_that_cannot_be_opened_is_an_open_error() {
    let mut world = world(&["default"]);
    world.opening = Err("locked".to_string());
    let outcome = drive(&mut world, force_compaction(PathBuf::from("/data/db"), None));
    match outcome {
        Err(Error::Open(path, cause)) => {
            assert_eq!(path, PathBuf::from("/data/db"));
            assert_eq!(cause, "locked");
        }
        other => panic!("unexpected outcome {:?}", other),
    }
    assert_eq!(world.log, ["list", "open default"]);
    assert!(world.compactions.is_empty());
}

#[test]
fn an_event_that_answers_nothing_stops_the_run() {
    let (run, _) = force_compaction_cf::<String>(names(&["foo"]), None, true);
    let (run, action) = run.step(Event::EntryRemoved(Ok(())));
    assert!(run.is_finished());
    assert!(matches!(action, Action::Stopped));

    let (run, _) = force_compaction_cf::<String>(names(&["foo"]), None, true);
    let (run, _) = run.step(Event::ColumnFamilyResolved(true));
    let (run, action) = run.step(Event::EntrySize(Ok(0)));
    assert!(run.is_finished());
    assert!(matches!(action, Action::Stopped));
}

#[test]
fn a_finished_run_asks_for_nothing() {
    let (run, _) = force_compaction_cf::<String>(names(&["foo"]), None, true);
    let (run, action) = run.step(Event::ColumnFamilyResolved(false));
    assert!(run.is_finished());
    assert!(matches!(action, Action::Finish(Err(Error::ColumnFamily(_)))));
    let (run, action) = run.step(Event::ColumnFamilyResolved(true));
    assert!(run.is_finished());
    assert!(matches!(action, Action::Stopped));
    let (run, action) = run.step(Event::CompactionRequested);
    assert_eq!(run.phase(), Phase::Finished);
    assert!(matches!(action, Action::Stopped));
}
