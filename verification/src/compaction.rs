//! The compaction orchestrator: a forced, manual compaction of column families, run until
//! the engine is quiet, and followed by the removal of empty log segments.
//!
//! The orchestrator never touches the engine, the clock or the file system. A run is a
//! value of [`Compaction`]. It begins with [`force_compaction`] or [`force_compaction_cf`],
//! which give the first [`Action`]. The driver performs the action and hands what happened
//! to [`Compaction::step`] as an [`Event`]; the step gives the next action, until the
//! action is [`Action::Finish`], which holds the outcome of the run.
//!
//! What a run asks for, in order:
//!
//! 1. every name is resolved to a column family; the first that the database does not have
//!    ends the run, and nothing has been compacted;
//! 2. one compaction is requested for every column family, in the order of the names;
//! 3. the clock is read, and the two counters of the engine are polled, the pending
//!    compactions first, until both are zero in the same poll; between two polls the run
//!    sleeps, and once a second at most it reports that it is still waiting;
//! 4. if asked to, the database directory is scanned and every empty log segment removed.
//!
//! There is no deadline: a run lasts as long as the engine reports work, and the only way
//! to end it early is not to take the next step. A compaction that was requested is never
//! taken back, whatever fails after it: once the first request is out, a run that fails or
//! is given up may leave the engine compacting.
use crate::error::{outcome_view, Error, ErrorView};
use crate::progress::{
    is_notification_due, notification_due, elapsed, elapsed_between, progress_line,
    progress_message, POLL_INTERVAL_MILLIS,
};
use crate::text::{names_of, str_of, text_of};
use crate::wal::{has_wal_extension, is_wal_segment_name};
use vstd::prelude::*;

verus! {

/// A counter of the engine that tells of compaction work, over the whole database.
#[derive(Clone, Copy, Debug, PartialEq, Eq, Structural)]
pub enum Property {
    /// Whether compactions are waiting to run.
    CompactionPending,
    /// How many compactions are running.
    NumRunningCompactions,
}

impl Property {
    /// The name under which a failure to read this property is reported.
    pub open spec fn name_text(self) -> Seq<char> {
        match self {
            Property::CompactionPending => "COMPACTION_PENDING"@,
            Property::NumRunningCompactions => "NUM_RUNNING_COMPACTIONS"@,
        }
    }

    /// Gives the name under which a failure to read this property is reported.
    pub fn name(&self) -> (name: String)
        ensures
            name@ == self.name_text(),
    {
        match self {
            Property::CompactionPending => "COMPACTION_PENDING".to_owned(),
            Property::NumRunningCompactions => "NUM_RUNNING_COMPACTIONS".to_owned(),
        }
    }
}

/// What a compaction does with the bottommost level.
#[derive(Clone, Copy, Debug, PartialEq, Eq, Structural)]
pub enum BottommostLevelCompaction {
    /// The level is left alone.
    Skip,
    /// The level is rewritten only where a compaction filter is set.
    IfHaveCompactionFilter,
    /// The level is always rewritten.
    Force,
    /// The level is rewritten, but for files that this compaction wrote itself.
    ForceOptimized,
}

/// A request to compact one column family.
#[derive(Clone, Copy, Debug, PartialEq, Eq, Structural)]
pub struct CompactionRequest {
    /// No automatic compaction runs beside this one.
    pub exclusive_manual_compaction: bool,
    pub bottommost_level_compaction: BottommostLevelCompaction,
    /// The request covers every key: it has neither a first nor a last key.
    pub whole_key_range: bool,
}

/// The one request that a run makes: exclusive, over all keys, and rewriting the
/// bottommost level.
pub open spec fn forced_request() -> CompactionRequest {
    CompactionRequest {
        exclusive_manual_compaction: true,
        bottommost_level_compaction: BottommostLevelCompaction::Force,
        whole_key_range: true,
    }
}

/// What a run waits for.
#[derive(Clone, Copy, Debug, PartialEq, Eq, Structural)]
pub enum Phase {
    /// The names of the column families at the path.
    Listing,
    /// The database to be opened.
    Opening,
    /// The column family of the name at this index.
    Resolving(usize),
    /// The compaction of the column family at this index to be requested.
    Requesting(usize),
    /// The clock reading at which the wait begins.
    Starting,
    /// The counter of pending compactions.
    ReadingPending,
    /// The counter of running compactions.
    ReadingRunning,
    /// The pause between two polls.
    Sleeping,
    /// The clock reading after a pause.
    Checking,
    /// The progress line to be written.
    Notifying,
    /// The database directory to be opened for listing.
    OpeningDirectory,
    /// The next entry of the directory.
    Scanning,
    /// The length of the entry at hand.
    Sizing,
    /// The entry at hand to be removed.
    Removing,
    /// Nothing: the run is over.
    Finished,
}

/// What the driver is asked to do next.
#[derive(Debug)]
pub enum Action<E> {
    /// List the names of the column families of the database at the path.
    ListColumnFamilies,
    /// Open the database at the path with these column families, each with the options
    /// of the database.
    OpenDatabase(Vec<String>),
    /// Look up the column family of this name in the open database, and keep its handle:
    /// the handles are numbered from 0 in the order in which they were found.
    ResolveColumnFamily(String),
    /// Hand this request to the engine for the column family whose handle has this number,
    /// and do not wait for the compaction.
    CompactRange(usize, CompactionRequest),
    /// Read the clock.
    ReadClock,
    /// Read this counter of the engine.
    ReadProperty(Property),
    /// Sleep for this many milliseconds.
    Sleep(u64),
    /// Write this progress line.
    Notify(String),
    /// Open the database directory for listing.
    ReadDirectory,
    /// Read the next entry of the directory.
    NextEntry,
    /// Read the length of the entry that was read last.
    EntrySize,
    /// Remove the entry that was read last.
    RemoveEntry,
    /// Return this outcome: the run is over.
    Finish(Result<(), Error<E>>),
    /// Nothing: the run was over before, or the event did not answer what was asked.
    Stopped,
}

/// The mathematical content of an [`Action`].
pub enum ActionView<E> {
    ListColumnFamilies,
    OpenDatabase(Seq<Seq<char>>),
    ResolveColumnFamily(Seq<char>),
    CompactRange(usize, CompactionRequest),
    ReadClock,
    ReadProperty(Property),
    Sleep(u64),
    Notify(Seq<char>),
    ReadDirectory,
    NextEntry,
    EntrySize,
    RemoveEntry,
    Finish(Result<(), ErrorView<E>>),
    Stopped,
}

impl<E> View for Action<E> {
    type V = ActionView<E>;

    open spec fn view(&self) -> ActionView<E> {
        match *self {
            Action::ListColumnFamilies => ActionView::ListColumnFamilies,
            Action::OpenDatabase(names) => ActionView::OpenDatabase(names_of(names@)),
            Action::ResolveColumnFamily(name) => ActionView::ResolveColumnFamily(name@),
            Action::CompactRange(index, request) => ActionView::CompactRange(index, request),
            Action::ReadClock => ActionView::ReadClock,
            Action::ReadProperty(property) => ActionView::ReadProperty(property),
            Action::Sleep(millis) => ActionView::Sleep(millis),
            Action::Notify(line) => ActionView::Notify(line@),
            Action::ReadDirectory => ActionView::ReadDirectory,
            Action::NextEntry => ActionView::NextEntry,
            Action::EntrySize => ActionView::EntrySize,
            Action::RemoveEntry => ActionView::RemoveEntry,
            Action::Finish(outcome) => ActionView::Finish(outcome_view(outcome)),
            Action::Stopped => ActionView::Stopped,
        }
    }
}

/// What happened when the driver did what it was asked to do.
#[derive(Debug)]
pub enum Event<E> {
    /// The names of the column families at the path, or why they could not be listed.
    ColumnFamiliesListed(Result<Vec<String>, E>),
    /// The database was opened, or why it could not be.
    DatabaseOpened(Result<(), E>),
    /// Whether the database has the column family that was looked up.
    ColumnFamilyResolved(bool),
    /// The compaction was handed to the engine.
    CompactionRequested,
    /// The reading of the clock, in nanoseconds.
    Clock(u64),
    /// The value of the counter, nothing where the engine has none, or why it could not be
    /// read.
    PropertyRead(Result<Option<u64>, E>),
    /// The pause is over.
    Slept,
    /// The progress line was written.
    Notified,
    /// The directory was opened for listing, or why it could not be.
    DirectoryRead(Result<(), std::io::Error>),
    /// The name of the next entry, nothing at the end of the directory, or why the entry
    /// could not be read.
    Entry(Option<Result<Vec<u8>, std::io::Error>>),
    /// The length of the entry in bytes, or why it could not be read.
    EntrySize(Result<u64, std::io::Error>),
    /// The entry was removed, or why it could not be.
    EntryRemoved(Result<(), std::io::Error>),
}

/// The mathematical content of an [`Event`].
pub enum EventView<E> {
    ColumnFamiliesListed(Result<Seq<Seq<char>>, E>),
    DatabaseOpened(Result<(), E>),
    ColumnFamilyResolved(bool),
    CompactionRequested,
    Clock(u64),
    PropertyRead(Result<Option<u64>, E>),
    Slept,
    Notified,
    DirectoryRead(Result<(), std::io::Error>),
    Entry(Option<Result<Seq<u8>, std::io::Error>>),
    EntrySize(Result<u64, std::io::Error>),
    EntryRemoved(Result<(), std::io::Error>),
}

impl<E> View for Event<E> {
    type V = EventView<E>;

    open spec fn view(&self) -> EventView<E> {
        match *self {
            Event::ColumnFamiliesListed(Ok(names)) => EventView::ColumnFamiliesListed(
                Ok(names_of(names@)),
            ),
            Event::ColumnFamiliesListed(Err(cause)) => EventView::ColumnFamiliesListed(
                Err(cause),
            ),
            Event::DatabaseOpened(opened) => EventView::DatabaseOpened(opened),
            Event::ColumnFamilyResolved(found) => EventView::ColumnFamilyResolved(found),
            Event::CompactionRequested => EventView::CompactionRequested,
            Event::Clock(now) => EventView::Clock(now),
            Event::PropertyRead(value) => EventView::PropertyRead(value),
            Event::Slept => EventView::Slept,
            Event::Notified => EventView::Notified,
            Event::DirectoryRead(opened) => EventView::DirectoryRead(opened),
            Event::Entry(None) => EventView::Entry(None),
            Event::Entry(Some(Ok(name))) => EventView::Entry(Some(Ok(name@))),
            Event::Entry(Some(Err(cause))) => EventView::Entry(Some(Err(cause))),
            Event::EntrySize(len) => EventView::EntrySize(len),
            Event::EntryRemoved(removed) => EventView::EntryRemoved(removed),
        }
    }
}

/// The state of a run, as mathematics.
pub struct CompactionState {
    /// The path of the database, while it is not open yet.
    pub path: Option<std::path::PathBuf>,
    /// The names of the column families to compact.
    pub cf_names: Seq<Seq<char>>,
    /// What a progress line begins with; without it, none is written.
    pub wait_msg_prefix: Option<Seq<char>>,
    /// Whether the empty log segments are removed once the engine is quiet.
    pub remove_empty_wal_files: bool,
    /// What the run waits for.
    pub phase: Phase,
    /// The clock reading at which the wait began.
    pub started: u64,
    /// The clock reading at which the last progress line was due.
    pub last_logged: u64,
    /// The name of the directory entry at hand.
    pub entry: Seq<u8>,
}

impl CompactionState {
    /// What holds of the state of every run.
    pub open spec fn wf(self) -> bool {
        match self.phase {
            Phase::Listing | Phase::Opening => self.path is Some,
            Phase::Resolving(index) | Phase::Requesting(index) => index < self.cf_names.len(),
            Phase::Checking | Phase::Notifying => self.wait_msg_prefix is Some,
            Phase::Sizing | Phase::Removing => is_wal_segment_name(self.entry),
            _ => true,
        }
    }

    /// This state in another phase.
    pub open spec fn at(self, phase: Phase) -> CompactionState {
        CompactionState { phase, ..self }
    }

    /// The run ends with this failure.
    pub open spec fn fail<E>(self, error: ErrorView<E>) -> (CompactionState, ActionView<E>) {
        (self.at(Phase::Finished), ActionView::Finish(Err(error)))
    }

    /// The run ends, the database not having been opened.
    pub open spec fn fail_to_open<E>(self, cause: E) -> (CompactionState, ActionView<E>) {
        (
            CompactionState { path: None, phase: Phase::Finished, ..self },
            ActionView::Finish(Err(ErrorView::Open(self.path->0, cause))),
        )
    }

    /// The run ends well.
    pub open spec fn succeed<E>(self) -> (CompactionState, ActionView<E>) {
        (self.at(Phase::Finished), ActionView::Finish(Ok(())))
    }

    /// The run ends without an outcome.
    pub open spec fn stop<E>(self) -> (CompactionState, ActionView<E>) {
        (self.at(Phase::Finished), ActionView::Stopped)
    }

    /// The next poll begins, with the counter of pending compactions.
    pub open spec fn poll<E>(self) -> (CompactionState, ActionView<E>) {
        (
            self.at(Phase::ReadingPending),
            ActionView::ReadProperty(Property::CompactionPending),
        )
    }

    /// The engine reports work: the run sleeps before the next poll.
    pub open spec fn wait<E>(self) -> (CompactionState, ActionView<E>) {
        (self.at(Phase::Sleeping), ActionView::Sleep(POLL_INTERVAL_MILLIS))
    }

    /// The next entry of the directory is asked for.
    pub open spec fn scan<E>(self) -> (CompactionState, ActionView<E>) {
        (self.at(Phase::Scanning), ActionView::NextEntry)
    }

    /// The engine is quiet: the log is cleaned up if that was asked for, and the run ends
    /// well if not.
    pub open spec fn quiesce<E>(self) -> (CompactionState, ActionView<E>) {
        if self.remove_empty_wal_files {
            (self.at(Phase::OpeningDirectory), ActionView::ReadDirectory)
        } else {
            self.succeed()
        }
    }

    /// The value of one counter.
    pub open spec fn counter<E>(self, property: Property, value: Result<Option<u64>, E>) -> (
        CompactionState,
        ActionView<E>,
    ) {
        match value {
            Err(cause) => self.fail(ErrorView::PropertyAccess(cause)),
            Ok(None) => self.fail(ErrorView::PropertyNotSet(property.name_text())),
            Ok(Some(count)) => if count > 0 {
                self.wait()
            } else {
                match property {
                    Property::CompactionPending => (
                        self.at(Phase::ReadingRunning),
                        ActionView::ReadProperty(Property::NumRunningCompactions),
                    ),
                    Property::NumRunningCompactions => self.quiesce(),
                }
            },
        }
    }

    /// What a run does when it is told what happened: the state after the event, and the
    /// action that is asked for next.
    ///
    /// An event that does not answer what the run waits for stops the run: it asks for
    /// nothing more.
    pub open spec fn next<E>(self, event: EventView<E>) -> (CompactionState, ActionView<E>) {
        match (self.phase, event) {
            (Phase::Listing, EventView::ColumnFamiliesListed(Ok(names))) => (
                CompactionState { cf_names: names, phase: Phase::Opening, ..self },
                ActionView::OpenDatabase(names),
            ),
            (Phase::Listing, EventView::ColumnFamiliesListed(Err(cause))) => self.fail_to_open(
                cause,
            ),
            (Phase::Opening, EventView::DatabaseOpened(Ok(()))) => begin(
                self.cf_names,
                self.wait_msg_prefix,
                self.remove_empty_wal_files,
            ),
            (Phase::Opening, EventView::DatabaseOpened(Err(cause))) => self.fail_to_open(cause),
            (Phase::Resolving(index), EventView::ColumnFamilyResolved(found)) => if !found {
                self.fail(ErrorView::ColumnFamily(self.cf_names[index as int]))
            } else if index + 1 < self.cf_names.len() {
                (
                    self.at(Phase::Resolving((index + 1) as usize)),
                    ActionView::ResolveColumnFamily(self.cf_names[index + 1]),
                )
            } else {
                (self.at(Phase::Requesting(0)), ActionView::CompactRange(0, forced_request()))
            },
            (Phase::Requesting(index), EventView::CompactionRequested) => if index + 1
                < self.cf_names.len() {
                (
                    self.at(Phase::Requesting((index + 1) as usize)),
                    ActionView::CompactRange((index + 1) as usize, forced_request()),
                )
            } else {
                (self.at(Phase::Starting), ActionView::ReadClock)
            },
            (Phase::Starting, EventView::Clock(now)) => CompactionState {
                started: now,
                last_logged: now,
                ..self
            }.poll(),
            (Phase::ReadingPending, EventView::PropertyRead(value)) => self.counter(
                Property::CompactionPending,
                value,
            ),
            (Phase::ReadingRunning, EventView::PropertyRead(value)) => self.counter(
                Property::NumRunningCompactions,
                value,
            ),
            (Phase::Sleeping, EventView::Slept) => if self.wait_msg_prefix is Some {
                (self.at(Phase::Checking), ActionView::ReadClock)
            } else {
                self.poll()
            },
            (Phase::Checking, EventView::Clock(now)) => if notification_due(
                self.last_logged,
                now,
            ) {
                (
                    CompactionState { last_logged: now, phase: Phase::Notifying, ..self },
                    ActionView::Notify(
                        progress_line(
                            self.wait_msg_prefix->0,
                            elapsed_between(self.started, now),
                        ),
                    ),
                )
            } else {
                self.poll()
            },
            (Phase::Notifying, EventView::Notified) => self.poll(),
            (Phase::OpeningDirectory, EventView::DirectoryRead(Ok(()))) => self.scan(),
            (Phase::OpeningDirectory, EventView::DirectoryRead(Err(cause))) => self.fail(
                ErrorView::WalRemoval(cause),
            ),
            (Phase::Scanning, EventView::Entry(None)) => self.succeed(),
            (Phase::Scanning, EventView::Entry(Some(Err(cause)))) => self.fail(
                ErrorView::WalRemoval(cause),
            ),
            (Phase::Scanning, EventView::Entry(Some(Ok(name)))) => if is_wal_segment_name(name) {
                (
                    CompactionState { entry: name, phase: Phase::Sizing, ..self },
                    ActionView::EntrySize,
                )
            } else {
                self.scan()
            },
            (Phase::Sizing, EventView::EntrySize(Ok(len))) => if len == 0 {
                (self.at(Phase::Removing), ActionView::RemoveEntry)
            } else {
                self.scan()
            },
            (Phase::Sizing, EventView::EntrySize(Err(cause))) => self.fail(
                ErrorView::WalRemoval(cause),
            ),
            (Phase::Removing, EventView::EntryRemoved(Ok(()))) => self.scan(),
            (Phase::Removing, EventView::EntryRemoved(Err(cause))) => self.fail(
                ErrorView::WalRemoval(cause),
            ),
            _ => self.stop(),
        }
    }
}

/// How the compaction of the column families of these names begins in an open database:
/// with the first name to resolve, or, where there is no name, with the wait.
pub open spec fn begin<E>(
    cf_names: Seq<Seq<char>>,
    wait_msg_prefix: Option<Seq<char>>,
    remove_empty_wal_files: bool,
) -> (CompactionState, ActionView<E>) {
    let state = CompactionState {
        path: None,
        cf_names,
        wait_msg_prefix,
        remove_empty_wal_files,
        phase: Phase::Starting,
        started: 0,
        last_logged: 0,
        entry: Seq::empty(),
    };
    if cf_names.len() > 0 {
        (state.at(Phase::Resolving(0)), ActionView::ResolveColumnFamily(cf_names[0]))
    } else {
        (state, ActionView::ReadClock)
    }
}

/// How the compaction of the database at a path begins: with the list of its column
/// families. All of them are compacted, and the log is cleaned up afterwards.
pub open spec fn begin_at<E>(path: std::path::PathBuf, wait_msg_prefix: Option<Seq<char>>) -> (
    CompactionState,
    ActionView<E>,
) {
    (
        CompactionState {
            path: Some(path),
            cf_names: Seq::empty(),
            wait_msg_prefix,
            remove_empty_wal_files: true,
            phase: Phase::Listing,
            started: 0,
            last_logged: 0,
            entry: Seq::empty(),
        },
        ActionView::ListColumnFamilies,
    )
}

/// A compaction run: what was asked for, and what the run waits for.
///
/// `E` is the error type of the engine that the run is driven against.
#[derive(Debug)]
pub struct Compaction<E> {
    path: Option<std::path::PathBuf>,
    cf_names: Vec<String>,
    wait_msg_prefix: Option<String>,
    remove_empty_wal_files: bool,
    phase: Phase,
    started: u64,
    last_logged: u64,
    entry: Vec<u8>,
    engine: core::marker::PhantomData<E>,
}

impl<E> View for Compaction<E> {
    type V = CompactionState;

    closed spec fn view(&self) -> CompactionState {
        CompactionState {
            path: self.path,
            cf_names: names_of(self.cf_names@),
            wait_msg_prefix: text_of(self.wait_msg_prefix),
            remove_empty_wal_files: self.remove_empty_wal_files,
            phase: self.phase,
            started: self.started,
            last_logged: self.last_logged,
            entry: self.entry@,
        }
    }
}

/// Copies a list of names.
fn clone_names(names: &Vec<String>) -> (copy: Vec<String>)
    ensures
        names_of(copy@) == names_of(names@),
{
    let mut copy: Vec<String> = Vec::new();
    let mut i: usize = 0;
    while i < names.len()
        invariant
            i <= names.len(),
            copy.len() == i,
            forall|j: int| 0 <= j < i ==> copy[j]@ == names[j]@,
        decreases names.len() - i,
    {
        copy.push(names[i].clone());
        i += 1;
    }
    assert(names_of(copy@) =~= names_of(names@));
    copy
}

/// Begins the compaction of the column families of these names in an open database.
///
/// The first action is to resolve the first name. Where there is no name, nothing is
/// resolved or compacted, and the run begins with the wait.
///
/// With `remove_empty_wal_files` the run ends by removing the empty log segments from the
/// database directory. That is safe only if nothing else has the database open and the
/// database is closed right after the run.
pub fn force_compaction_cf<E>(
    cf_names: Vec<String>,
    wait_msg_prefix: Option<&str>,
    remove_empty_wal_files: bool,
) -> (run: (Compaction<E>, Action<E>))
    ensures
        (run.0@, run.1@) == begin::<E>(
            names_of(cf_names@),
            str_of(wait_msg_prefix),
            remove_empty_wal_files,
        ),
        run.0@.wf(),
{
    let prefix = match wait_msg_prefix {
        Some(p) => Some(p.to_owned()),
        None => None,
    };
    begin_run(cf_names, prefix, remove_empty_wal_files)
}

/// Begins the compaction of all column families of the database at `path`.
///
/// The first action is to list the column families. Once the database is open the run
/// goes on as one of [`force_compaction_cf`] with all the names that were listed, and it
/// always removes the empty log segments at its end: the database is taken to be closed
/// right after.
pub fn force_compaction<E>(path: std::path::PathBuf, wait_msg_prefix: Option<&str>) -> (run: (
    Compaction<E>,
    Action<E>,
))
    ensures
        (run.0@, run.1@) == begin_at::<E>(path, str_of(wait_msg_prefix)),
        run.0@.wf(),
{
    let prefix = match wait_msg_prefix {
        Some(p) => Some(p.to_owned()),
        None => None,
    };
    assert(names_of(Seq::<String>::empty()) =~= Seq::<Seq<char>>::empty());
    (
        Compaction {
            path: Some(path),
            cf_names: Vec::new(),
            wait_msg_prefix: prefix,
            remove_empty_wal_files: true,
            phase: Phase::Listing,
            started: 0,
            last_logged: 0,
            entry: Vec::new(),
            engine: core::marker::PhantomData,
        },
        Action::ListColumnFamilies,
    )
}

fn begin_run<E>(
    cf_names: Vec<String>,
    wait_msg_prefix: Option<String>,
    remove_empty_wal_files: bool,
) -> (run: (Compaction<E>, Action<E>))
    ensures
        (run.0@, run.1@) == begin::<E>(
            names_of(cf_names@),
            text_of(wait_msg_prefix),
            remove_empty_wal_files,
        ),
        run.0@.wf(),
{
    if cf_names.len() > 0 {
        let first = cf_names[0].clone();
        (
            Compaction {
                path: None,
                cf_names,
                wait_msg_prefix,
                remove_empty_wal_files,
                phase: Phase::Resolving(0),
                started: 0,
                last_logged: 0,
                entry: Vec::new(),
                engine: core::marker::PhantomData,
            },
            Action::ResolveColumnFamily(first),
        )
    } else {
        (
            Compaction {
                path: None,
                cf_names,
                wait_msg_prefix,
                remove_empty_wal_files,
                phase: Phase::Starting,
                started: 0,
                last_logged: 0,
                entry: Vec::new(),
                engine: core::marker::PhantomData,
            },
            Action::ReadClock,
        )
    }
}

impl<E> Compaction<E> {
    #[verifier::type_invariant]
    spec fn inv(self) -> bool {
        self@.wf()
    }

    /// Tells what the run waits for.
    pub fn phase(&self) -> (phase: Phase)
        ensures
            phase == self@.phase,
    {
        self.phase
    }

    /// Tells whether the run is over.
    pub fn is_finished(&self) -> (finished: bool)
        ensures
            finished == (self@.phase == Phase::Finished),
    {
        match self.phase {
            Phase::Finished => true,
            _ => false,
        }
    }

    fn at(self, phase: Phase) -> (run: Compaction<E>)
        requires
            self@.at(phase).wf(),
        ensures
            run@ == self@.at(phase),
    {
        Compaction { phase, ..self }
    }

    fn fail(self, error: Error<E>) -> (run: (Compaction<E>, Action<E>))
        ensures
            (run.0@, run.1@) == self@.fail(error@),
    {
        (self.at(Phase::Finished), Action::Finish(Err(error)))
    }

    fn fail_to_open(self, cause: E) -> (run: (Compaction<E>, Action<E>))
        requires
            self@.path is Some,
        ensures
            (run.0@, run.1@) == self@.fail_to_open(cause),
    {
        let Compaction {
            path,
            cf_names,
            wait_msg_prefix,
            remove_empty_wal_files,
            phase: _,
            started,
            last_logged,
            entry,
            engine,
        } = self;
        (
            Compaction {
                path: None,
                cf_names,
                wait_msg_prefix,
                remove_empty_wal_files,
                phase: Phase::Finished,
                started,
                last_logged,
                entry,
                engine,
            },
            Action::Finish(Err(Error::Open(path.unwrap(), cause))),
        )
    }

    fn succeed(self) -> (run: (Compaction<E>, Action<E>))
        ensures
            (run.0@, run.1@) == self@.succeed::<E>(),
    {
        (self.at(Phase::Finished), Action::Finish(Ok(())))
    }

    fn stop(self) -> (run: (Compaction<E>, Action<E>))
        ensures
            (run.0@, run.1@) == self@.stop::<E>(),
    {
        (self.at(Phase::Finished), Action::Stopped)
    }

    fn poll(self) -> (run: (Compaction<E>, Action<E>))
        ensures
            (run.0@, run.1@) == self@.poll::<E>(),
    {
        (self.at(Phase::ReadingPending), Action::ReadProperty(Property::CompactionPending))
    }

    fn wait(self) -> (run: (Compaction<E>, Action<E>))
        ensures
            (run.0@, run.1@) == self@.wait::<E>(),
    {
        (self.at(Phase::Sleeping), Action::Sleep(POLL_INTERVAL_MILLIS))
    }

    fn scan(self) -> (run: (Compaction<E>, Action<E>))
        ensures
            (run.0@, run.1@) == self@.scan::<E>(),
    {
        (self.at(Phase::Scanning), Action::NextEntry)
    }

    fn quiesce(self) -> (run: (Compaction<E>, Action<E>))
        ensures
            (run.0@, run.1@) == self@.quiesce::<E>(),
    {
        if self.remove_empty_wal_files {
            (self.at(Phase::OpeningDirectory), Action::ReadDirectory)
        } else {
            self.succeed()
        }
    }

    fn counter(self, property: Property, value: Result<Option<u64>, E>) -> (run: (
        Compaction<E>,
        Action<E>,
    ))
        ensures
            (run.0@, run.1@) == self@.counter(property, value),
    {
        match value {
            Err(cause) => self.fail(Error::PropertyAccess(cause)),
            Ok(None) => self.fail(Error::PropertyNotSet(property.name())),
            Ok(Some(count)) => if count > 0 {
                self.wait()
            } else {
                match property {
                    Property::CompactionPending => (
                        self.at(Phase::ReadingRunning),
                        Action::ReadProperty(Property::NumRunningCompactions),
                    ),
                    Property::NumRunningCompactions => self.quiesce(),
                }
            },
        }
    }

    /// Takes what happened, and gives the run after it and the action to perform next.
    ///
    /// There is no event on which this fails. An event that does not answer the action
    /// that was asked for last stops the run, as does any event once the run is over: the
    /// action is then [`Action::Stopped`].
    pub fn step(self, event: Event<E>) -> (run: (Compaction<E>, Action<E>))
        ensures
            (run.0@, run.1@) == self@.next(event@),
            run.0@.wf(),
    {
        proof {
            use_type_invariant(&self);
        }
        let count = self.cf_names.len();
        let run = match self.phase {
            Phase::Listing => match event {
                Event::ColumnFamiliesListed(Ok(names)) => {
                    let listed = clone_names(&names);
                    (
                        Compaction { cf_names: names, phase: Phase::Opening, ..self },
                        Action::OpenDatabase(listed),
                    )
                },
                Event::ColumnFamiliesListed(Err(cause)) => self.fail_to_open(cause),
                _ => self.stop(),
            },
            Phase::Opening => match event {
                Event::DatabaseOpened(Ok(())) => begin_run(
                    self.cf_names,
                    self.wait_msg_prefix,
                    self.remove_empty_wal_files,
                ),
                Event::DatabaseOpened(Err(cause)) => self.fail_to_open(cause),
                _ => self.stop(),
            },
            Phase::Resolving(index) => match event {
                Event::ColumnFamilyResolved(found) => if !found {
                    let name = self.cf_names[index].clone();
                    self.fail(Error::ColumnFamily(name))
                } else if index + 1 < count {
                    let name = self.cf_names[index + 1].clone();
                    (self.at(Phase::Resolving(index + 1)), Action::ResolveColumnFamily(name))
                } else {
                    (
                        self.at(Phase::Requesting(0)),
                        Action::CompactRange(
                            0,
                            CompactionRequest {
                                exclusive_manual_compaction: true,
                                bottommost_level_compaction: BottommostLevelCompaction::Force,
                                whole_key_range: true,
                            },
                        ),
                    )
                },
                _ => self.stop(),
            },
            Phase::Requesting(index) => match event {
                Event::CompactionRequested => if index + 1 < count {
                    (
                        self.at(Phase::Requesting(index + 1)),
                        Action::CompactRange(
                            index + 1,
                            CompactionRequest {
                                exclusive_manual_compaction: true,
                                bottommost_level_compaction: BottommostLevelCompaction::Force,
                                whole_key_range: true,
                            },
                        ),
                    )
                } else {
                    (self.at(Phase::Starting), Action::ReadClock)
                },
                _ => self.stop(),
            },
            Phase::Starting => match event {
                Event::Clock(now) => Compaction { started: now, last_logged: now, ..self }.poll(),
                _ => self.stop(),
            },
            Phase::ReadingPending => match event {
                Event::PropertyRead(value) => self.counter(Property::CompactionPending, value),
                _ => self.stop(),
            },
            Phase::ReadingRunning => match event {
                Event::PropertyRead(value) => self.counter(
                    Property::NumRunningCompactions,
                    value,
                ),
                _ => self.stop(),
            },
            Phase::Sleeping => match event {
                Event::Slept => if self.wait_msg_prefix.is_some() {
                    (self.at(Phase::Checking), Action::ReadClock)
                } else {
                    self.poll()
                },
                _ => self.stop(),
            },
            Phase::Checking => match event {
                Event::Clock(now) => if is_notification_due(self.last_logged, now) {
                    let line = match &self.wait_msg_prefix {
                        Some(prefix) => progress_message(
                            prefix.as_str(),
                            elapsed(self.started, now),
                        ),
                        None => String::new(),
                    };
                    (
                        Compaction { last_logged: now, phase: Phase::Notifying, ..self },
                        Action::Notify(line),
                    )
                } else {
                    self.poll()
                },
                _ => self.stop(),
            },
            Phase::Notifying => match event {
                Event::Notified => self.poll(),
                _ => self.stop(),
            },
            Phase::OpeningDirectory => match event {
                Event::DirectoryRead(Ok(())) => self.scan(),
                Event::DirectoryRead(Err(cause)) => self.fail(Error::WalRemoval(cause)),
                _ => self.stop(),
            },
            Phase::Scanning => match event {
                Event::Entry(None) => self.succeed(),
                Event::Entry(Some(Err(cause))) => self.fail(Error::WalRemoval(cause)),
                Event::Entry(Some(Ok(name))) => if has_wal_extension(name.as_slice()) {
                    (
                        Compaction { entry: name, phase: Phase::Sizing, ..self },
                        Action::EntrySize,
                    )
                } else {
                    self.scan()
                },
                _ => self.stop(),
            },
            Phase::Sizing => match event {
                Event::EntrySize(Ok(len)) => if len == 0 {
                    (self.at(Phase::Removing), Action::RemoveEntry)
                } else {
                    self.scan()
                },
                Event::EntrySize(Err(cause)) => self.fail(Error::WalRemoval(cause)),
                _ => self.stop(),
            },
            Phase::Removing => match event {
                Event::EntryRemoved(Ok(())) => self.scan(),
                Event::EntryRemoved(Err(cause)) => self.fail(Error::WalRemoval(cause)),
                _ => self.stop(),
            },
            Phase::Finished => self.stop(),
        };
        proof {
            use_type_invariant(&run.0);
        }
        run
    }
}

} // verus!
