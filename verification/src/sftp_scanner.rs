//! The remote scan source: one scan cycle over a directory listing, with the
//! dedup ledger asked before a download command is emitted.
//!
//! A cycle alternates decisions with work that only the caller can do (asking
//! the ledger, sending on the command channel, writing the ledger). The
//! decisions are [`ScanCycle`]: it hands out one [`ScanAction`] at a time and
//! is told how the action went.

use vstd::prelude::*;
use crate::clock::utc_now_millis;
use crate::paths::{file_name, path_file_name};
use crate::pattern::pattern_accepts;
use crate::settings::SftpSource;

verus! {

/// One entry of a remote directory listing.
#[derive(Debug, PartialEq, Eq)]
pub struct RemoteEntry {
    pub path: String,
    /// Size in bytes.
    pub size: u64,
}

/// A row of the dedup ledger: a file of a remote source as it was seen.
#[derive(Debug, PartialEq, Eq)]
pub struct LedgerRow {
    pub remote: String,
    pub path: String,
    pub size: i64,
}

/// The mathematical value of a [`LedgerRow`]: the triple that the ledger is
/// unique on.
pub ghost struct LedgerKey {
    pub remote: Seq<char>,
    pub path: Seq<char>,
    pub size: int,
}

impl View for LedgerRow {
    type V = LedgerKey;

    open spec fn view(&self) -> LedgerKey {
        LedgerKey { remote: self.remote@, path: self.path@, size: self.size as int }
    }
}

impl Clone for LedgerRow {
    fn clone(&self) -> (copy: LedgerRow)
        ensures
            copy@ == self@,
    {
        LedgerRow { remote: self.remote.clone(), path: self.path.clone(), size: self.size }
    }
}

/// The command to download one remote file.
#[derive(Debug, PartialEq, Eq)]
pub struct SftpDownload {
    /// When the command was made, in milliseconds since the Unix epoch.
    pub created: i64,
    pub size: Option<u64>,
    pub sftp_source: String,
    pub path: String,
}

/// The mathematical value of a [`SftpDownload`].
pub ghost struct SftpDownloadView {
    pub created: int,
    pub size: Option<int>,
    pub sftp_source: Seq<char>,
    pub path: Seq<char>,
}

impl View for SftpDownload {
    type V = SftpDownloadView;

    open spec fn view(&self) -> SftpDownloadView {
        SftpDownloadView {
            created: self.created as int,
            size: match self.size {
                Some(s) => Some(s as int),
                None => None,
            },
            sftp_source: self.sftp_source@,
            path: self.path@,
        }
    }
}

/// Why a scan cycle stopped before the end of the listing.
#[derive(Clone, Copy, Debug, PartialEq, Eq, Structural)]
pub enum ScanError {
    /// An entry's path has no final component to match the pattern against.
    NoFileName,
    /// An entry's size does not fit the ledger's signed 64-bit column.
    SizeOutOfRange,
    /// The command channel refused a command.
    SendFailed,
    /// The cycle was told of something that it had not asked for.
    OutOfTurn,
}

/// How a scan cycle ended.
#[derive(Clone, Copy, Debug, PartialEq, Eq, Structural)]
pub enum CycleEnd {
    /// Every entry of the listing was looked at.
    Completed,
    /// The rest of the listing was given up.
    Aborted(ScanError),
}

/// What the scanner does with one entry before the ledger has been asked.
#[derive(Debug, PartialEq, Eq)]
pub enum EntryDecision {
    /// Give up the rest of the cycle.
    Abort(ScanError),
    /// The name does not match the source's pattern: pass over the entry.
    Skip,
    /// Ask the ledger for this row.
    Inquire(LedgerRow),
}

/// The mathematical value of an [`EntryDecision`].
pub ghost enum EntryVerdict {
    Abort(ScanError),
    Skip,
    Inquire(LedgerKey),
}

impl View for EntryDecision {
    type V = EntryVerdict;

    open spec fn view(&self) -> EntryVerdict {
        match self {
            EntryDecision::Abort(e) => EntryVerdict::Abort(*e),
            EntryDecision::Skip => EntryVerdict::Skip,
            EntryDecision::Inquire(row) => EntryVerdict::Inquire(row@),
        }
    }
}

/// The verdict on an entry of the source `remote`, given whether its file
/// name matched the pattern (`None`: the path has no file name). A path
/// without a file name and a size beyond `i64` end the cycle, in that order,
/// whether or not the name would have matched.
pub open spec fn verdict(remote: Seq<char>, path: Seq<char>, size: int, matched: Option<bool>)
    -> EntryVerdict {
    match matched {
        None => EntryVerdict::Abort(ScanError::NoFileName),
        Some(m) => if size > i64::MAX {
            EntryVerdict::Abort(ScanError::SizeOutOfRange)
        } else if !m {
            EntryVerdict::Skip
        } else {
            EntryVerdict::Inquire(LedgerKey { remote, path, size })
        },
    }
}

/// Whether the final component of `path` matches `pattern`; `None` where the
/// path has no final component.
pub open spec fn name_matches(pattern: Seq<char>, path: Seq<char>) -> Option<bool> {
    match path_file_name(path) {
        Some(name) => Some(pattern_accepts(pattern, name)),
        None => None,
    }
}

/// The verdict of `source` on `entry`.
pub open spec fn entry_verdict(source: &SftpSource, entry: &RemoteEntry) -> EntryVerdict {
    verdict(source.name@, entry.path@, entry.size as int, name_matches(source.regex@, entry.path@))
}

/// Decides on one entry of a listing of the source `remote`, given the
/// outcome of matching its file name.
pub fn decide_entry(remote: &String, entry: &RemoteEntry, matched: Option<bool>) -> (decision:
    EntryDecision)
    ensures
        decision@ == verdict(remote@, entry.path@, entry.size as int, matched),
{
    match matched {
        None => EntryDecision::Abort(ScanError::NoFileName),
        Some(m) => {
            if entry.size > i64::MAX as u64 {
                EntryDecision::Abort(ScanError::SizeOutOfRange)
            } else if !m {
                EntryDecision::Skip
            } else {
                EntryDecision::Inquire(
                    LedgerRow {
                        remote: remote.clone(),
                        path: entry.path.clone(),
                        size: entry.size as i64,
                    },
                )
            }
        },
    }
}

/// Decides on one entry of a listing of `source`: takes the file name off the
/// path, matches it against the source's pattern and decides on the outcome.
pub fn examine_entry(source: &SftpSource, entry: &RemoteEntry) -> (decision: EntryDecision)
    ensures
        decision@ == entry_verdict(source, entry),
{
    let matched = match file_name(entry.path.as_str()) {
        Some(name) => Some(source.regex.is_match(name.as_str())),
        None => None,
    };
    decide_entry(&source.name, entry, matched)
}

/// The command for a row that the ledger did not know, made at `created`.
pub open spec fn command_for(key: LedgerKey, created: int) -> SftpDownloadView {
    SftpDownloadView {
        created,
        size: Some(key.size),
        sftp_source: key.remote,
        path: key.path,
    }
}

/// Builds the download command for `entry` of the source `remote`, made at
/// `created`.
pub fn build_command(remote: &String, entry: &RemoteEntry, created: i64) -> (command: SftpDownload)
    ensures
        command@ == command_for(
            LedgerKey { remote: remote@, path: entry.path@, size: entry.size as int },
            created as int,
        ),
{
    SftpDownload {
        created,
        size: Some(entry.size),
        sftp_source: remote.clone(),
        path: entry.path.clone(),
    }
}

/// Where a scan cycle stands.
#[derive(Clone, Copy, Debug, PartialEq, Eq, Structural)]
pub enum ScanPhase {
    /// Not begun.
    Fresh,
    /// The ledger has been asked for the current entry's row.
    AwaitingLookup,
    /// The current entry's command is on its way to the command channel.
    AwaitingSend,
    /// The current entry's row is being written to the ledger.
    AwaitingInsert,
    /// Over.
    Ended,
}

/// What the caller tells a scan cycle: that it may begin, or how the action
/// went that the cycle handed out last.
#[derive(Clone, Copy, Debug, PartialEq, Eq, Structural)]
pub enum ScanReply {
    /// Begin the cycle.
    Begin,
    /// Whether the ledger holds the row that was asked for.
    Found(bool),
    /// Whether the command channel took the command.
    Sent(bool),
    /// Whether the row was written to the ledger.
    Inserted(bool),
}

/// What the caller is to do next for a scan cycle.
#[derive(Debug, PartialEq, Eq)]
pub enum ScanAction {
    /// Ask the ledger whether it holds the row.
    QueryLedger(LedgerRow),
    /// Offer the command to the command channel without blocking.
    SendCommand(SftpDownload),
    /// Write the row to the ledger.
    InsertLedger(LedgerRow),
    /// Nothing more: the cycle is over.
    EndCycle(CycleEnd),
}

/// The mathematical value of a [`ScanAction`].
pub ghost enum ScanActionView {
    QueryLedger(LedgerKey),
    SendCommand(SftpDownloadView),
    InsertLedger(LedgerKey),
    EndCycle(CycleEnd),
}

impl View for ScanAction {
    type V = ScanActionView;

    open spec fn view(&self) -> ScanActionView {
        match self {
            ScanAction::QueryLedger(row) => ScanActionView::QueryLedger(row@),
            ScanAction::SendCommand(command) => ScanActionView::SendCommand(command@),
            ScanAction::InsertLedger(row) => ScanActionView::InsertLedger(row@),
            ScanAction::EndCycle(end) => ScanActionView::EndCycle(*end),
        }
    }
}

/// Where a cycle comes to rest, and the action it then hands out.
pub ghost struct Progress {
    pub position: int,
    pub phase: ScanPhase,
    pub action: ScanActionView,
}

/// Where a cycle over `entries` comes to rest when it looks at the entries
/// from index `from` on: at the first entry that is not passed over, or at the
/// end of the listing.
pub open spec fn advance(source: &SftpSource, entries: Seq<RemoteEntry>, from: int) -> Progress
    decreases entries.len() - from,
{
    if from >= entries.len() {
        Progress {
            position: entries.len() as int,
            phase: ScanPhase::Ended,
            action: ScanActionView::EndCycle(CycleEnd::Completed),
        }
    } else {
        match entry_verdict(source, &entries[from]) {
            EntryVerdict::Abort(e) => Progress {
                position: from,
                phase: ScanPhase::Ended,
                action: ScanActionView::EndCycle(CycleEnd::Aborted(e)),
            },
            EntryVerdict::Skip => advance(source, entries, from + 1),
            EntryVerdict::Inquire(key) => Progress {
                position: from,
                phase: ScanPhase::AwaitingLookup,
                action: ScanActionView::QueryLedger(key),
            },
        }
    }
}

/// One scan cycle over a listing of a remote source.
#[derive(Debug)]
pub struct ScanCycle<'a> {
    source: &'a SftpSource,
    entries: Vec<RemoteEntry>,
    position: usize,
    phase: ScanPhase,
}

impl<'a> ScanCycle<'a> {
    /// The source that is scanned.
    pub closed spec fn source(&self) -> &SftpSource {
        self.source
    }

    /// The listing.
    pub closed spec fn entries(&self) -> Seq<RemoteEntry> {
        self.entries@
    }

    /// The index of the current entry.
    pub closed spec fn position(&self) -> int {
        self.position as int
    }

    /// The phase, for contracts.
    pub closed spec fn spec_phase(&self) -> ScanPhase {
        self.phase
    }

    /// The ledger row of the current entry.
    pub open spec fn current_key(&self) -> LedgerKey {
        LedgerKey {
            remote: self.source().name@,
            path: self.entries()[self.position()].path@,
            size: self.entries()[self.position()].size as int,
        }
    }

    /// The cycle's invariant: the position lies within the listing, and while
    /// an answer is awaited the current entry is one that the ledger is asked
    /// about.
    pub open spec fn wf(&self) -> bool {
        &&& 0 <= self.position() <= self.entries().len()
        &&& match self.spec_phase() {
            ScanPhase::Fresh => self.position() == 0,
            ScanPhase::Ended => true,
            _ => {
                &&& self.position() < self.entries().len()
                &&& entry_verdict(self.source(), &self.entries()[self.position()])
                    == EntryVerdict::Inquire(self.current_key())
            },
        }
    }

    /// Whether `self` is `before` moved on to where `progress` says, over the
    /// same listing of the same source.
    pub open spec fn moved(&self, before: &ScanCycle<'a>, progress: Progress) -> bool {
        &&& self.source() == before.source()
        &&& self.entries() == before.entries()
        &&& self.position() == progress.position
        &&& self.spec_phase() == progress.phase
    }

    /// A cycle over `entries`, a listing of `source`, not yet begun.
    pub fn new(source: &'a SftpSource, entries: Vec<RemoteEntry>) -> (cycle: ScanCycle<'a>)
        ensures
            cycle.wf(),
            cycle.source() == source,
            cycle.entries() == entries@,
            cycle.position() == 0,
            cycle.spec_phase() == ScanPhase::Fresh,
    {
        ScanCycle { source, entries, position: 0, phase: ScanPhase::Fresh }
    }

    /// The phase the cycle is in.
    pub fn phase(&self) -> (phase: ScanPhase)
        ensures
            phase == self.spec_phase(),
    {
        self.phase
    }

    /// Looks at the entries from `from` on and comes to rest.
    fn advance_from(&mut self, from: usize) -> (action: ScanAction)
        requires
            from <= old(self).entries().len(),
        ensures
            final(self).wf(),
            final(self).moved(old(self), advance(old(self).source(), old(self).entries(), from as int)),
            action@ == advance(old(self).source(), old(self).entries(), from as int).action,
    {
        let mut i: usize = from;
        while i < self.entries.len()
            invariant
                from <= i <= self.entries.len(),
                self.source == old(self).source,
                self.entries == old(self).entries,
                advance(self.source, self.entries@, i as int) == advance(
                    self.source,
                    self.entries@,
                    from as int,
                ),
            decreases self.entries.len() - i,
        {
            match examine_entry(self.source, &self.entries[i]) {
                EntryDecision::Abort(e) => {
                    self.position = i;
                    self.phase = ScanPhase::Ended;
                    return ScanAction::EndCycle(CycleEnd::Aborted(e));
                },
                EntryDecision::Skip => {
                    i = i + 1;
                },
                EntryDecision::Inquire(row) => {
                    self.position = i;
                    self.phase = ScanPhase::AwaitingLookup;
                    return ScanAction::QueryLedger(row);
                },
            }
        }
        self.position = i;
        self.phase = ScanPhase::Ended;
        ScanAction::EndCycle(CycleEnd::Completed)
    }

    /// The ledger row of the current entry.
    fn current_row(&self) -> (row: LedgerRow)
        requires
            self.wf(),
            self.spec_phase() != ScanPhase::Fresh,
            self.spec_phase() != ScanPhase::Ended,
        ensures
            row@ == self.current_key(),
    {
        let entry = &self.entries[self.position];
        LedgerRow {
            remote: self.source.name.clone(),
            path: entry.path.clone(),
            size: entry.size as i64,
        }
    }

    /// Whether `reply` answers what the cycle asked last.
    pub open spec fn expects(&self, reply: ScanReply) -> bool {
        match (self.spec_phase(), reply) {
            (ScanPhase::Fresh, ScanReply::Begin) => true,
            (ScanPhase::AwaitingLookup, ScanReply::Found(_)) => true,
            (ScanPhase::AwaitingSend, ScanReply::Sent(_)) => true,
            (ScanPhase::AwaitingInsert, ScanReply::Inserted(_)) => true,
            _ => false,
        }
    }

    /// Where the cycle goes on `reply`, a command being made at `now` where
    /// one is made.
    ///
    /// A row that the ledger holds is suppressed and the cycle moves on; for
    /// a row that it does not hold the command is handed out. A command that
    /// the channel took has its row written to the ledger next; one that was
    /// refused ends the cycle. Written or not, after the ledger write the
    /// cycle moves on. A reply that the cycle did not ask for ends it.
    pub open spec fn next(&self, reply: ScanReply, now: int) -> Progress {
        if !self.expects(reply) {
            Progress {
                position: self.position(),
                phase: ScanPhase::Ended,
                action: ScanActionView::EndCycle(CycleEnd::Aborted(ScanError::OutOfTurn)),
            }
        } else {
            match reply {
                ScanReply::Begin => advance(self.source(), self.entries(), 0),
                ScanReply::Found(true) | ScanReply::Inserted(_) => advance(
                    self.source(),
                    self.entries(),
                    self.position() + 1,
                ),
                ScanReply::Found(false) => Progress {
                    position: self.position(),
                    phase: ScanPhase::AwaitingSend,
                    action: ScanActionView::SendCommand(command_for(self.current_key(), now)),
                },
                ScanReply::Sent(true) => Progress {
                    position: self.position(),
                    phase: ScanPhase::AwaitingInsert,
                    action: ScanActionView::InsertLedger(self.current_key()),
                },
                ScanReply::Sent(false) => Progress {
                    position: self.position(),
                    phase: ScanPhase::Ended,
                    action: ScanActionView::EndCycle(CycleEnd::Aborted(ScanError::SendFailed)),
                },
            }
        }
    }

    /// Takes `reply` and hands out the next action, a command being made at
    /// `now` where one is made.
    pub fn step_at(&mut self, reply: ScanReply, now: i64) -> (action: ScanAction)
        requires
            old(self).wf(),
        ensures
            final(self).wf(),
            final(self).moved(old(self), old(self).next(reply, now as int)),
            action@ == old(self).next(reply, now as int).action,
    {
        match (self.phase, reply) {
            (ScanPhase::Fresh, ScanReply::Begin) => self.advance_from(0),
            (ScanPhase::AwaitingLookup, ScanReply::Found(true)) | (
                ScanPhase::AwaitingInsert,
                ScanReply::Inserted(_),
            ) => {
                assert(self.position < self.entries.len());
                self.advance_from(self.position + 1)
            },
            (ScanPhase::AwaitingLookup, ScanReply::Found(false)) => {
                self.phase = ScanPhase::AwaitingSend;
                ScanAction::SendCommand(
                    build_command(&self.source.name, &self.entries[self.position], now),
                )
            },
            (ScanPhase::AwaitingSend, ScanReply::Sent(true)) => {
                let row = self.current_row();
                self.phase = ScanPhase::AwaitingInsert;
                ScanAction::InsertLedger(row)
            },
            (ScanPhase::AwaitingSend, ScanReply::Sent(false)) => {
                self.phase = ScanPhase::Ended;
                ScanAction::EndCycle(CycleEnd::Aborted(ScanError::SendFailed))
            },
            _ => {
                self.phase = ScanPhase::Ended;
                ScanAction::EndCycle(CycleEnd::Aborted(ScanError::OutOfTurn))
            },
        }
    }

    /// Takes `reply` and hands out the next action, reading the clock for the
    /// command where one is made: [`ScanCycle::step_at`] at the present
    /// instant, whatever that is.
    pub fn step(&mut self, reply: ScanReply) -> (action: ScanAction)
        requires
            old(self).wf(),
        ensures
            final(self).wf(),
            exists|now: int|
                {
                    &&& final(self).moved(old(self), #[trigger] old(self).next(reply, now))
                    &&& action@ == old(self).next(reply, now).action
                },
    {
        let now = utc_now_millis();
        self.step_at(reply, now)
    }
}

/// Milliseconds between two attempts to connect to a remote source.
pub const CONNECT_RETRY_DELAY_MS: u64 = 1000;

/// Where the thread of one remote source stands.
#[derive(Clone, Copy, Debug, PartialEq, Eq, Structural)]
pub enum ScannerState {
    /// Not started.
    Idle,
    /// An attempt to connect is under way.
    Connecting,
    /// Waiting before the next attempt to connect.
    RetryWait,
    /// A directory listing and its scan cycle are under way.
    Scanning,
    /// Resting between two cycles.
    Resting,
    /// The thread is over.
    Stopped,
}

/// What happened to the thread of a remote source.
#[derive(Clone, Copy, Debug, PartialEq, Eq, Structural)]
pub enum ScannerEvent {
    /// The thread was started.
    Started,
    /// The attempt to connect failed.
    ConnectFailed,
    /// The connection stands.
    Connected,
    /// The remote directory could not be listed.
    ListingFailed,
    /// The scan cycle over the listing is over, however it ended.
    CycleEnded,
    /// The wait is over.
    Woke,
}

/// What the thread of a remote source does next.
#[derive(Clone, Copy, Debug, PartialEq, Eq, Structural)]
pub enum ScannerAction {
    /// Try to connect to the remote endpoint.
    Connect,
    /// Wait this many milliseconds, then try to connect again.
    RetryAfter(u64),
    /// List the remote directory and run a scan cycle over the listing.
    ListDirectory,
    /// Record the cycle's count and duration, then rest this many
    /// milliseconds.
    RecordAndRest(u64),
    /// End the thread.
    Stop,
}

/// The step at a cycle boundary, the only place where a stop request is
/// looked at.
pub open spec fn at_boundary(stop_requested: bool) -> (ScannerState, ScannerAction) {
    if stop_requested {
        (ScannerState::Stopped, ScannerAction::Stop)
    } else {
        (ScannerState::Scanning, ScannerAction::ListDirectory)
    }
}

/// The thread's next state and action after `event` in `state`; `None` where
/// that event cannot follow that state. A failed connection is tried again
/// after [`CONNECT_RETRY_DELAY_MS`], without end; a failed listing ends the
/// thread; after a cycle the thread rests for `scan_interval` milliseconds.
pub open spec fn scanner_transition(
    state: ScannerState,
    event: ScannerEvent,
    stop_requested: bool,
    scan_interval: u64,
) -> Option<(ScannerState, ScannerAction)> {
    match (state, event) {
        (ScannerState::Idle, ScannerEvent::Started) => Some(
            (ScannerState::Connecting, ScannerAction::Connect),
        ),
        (ScannerState::Connecting, ScannerEvent::ConnectFailed) => Some(
            (ScannerState::RetryWait, ScannerAction::RetryAfter(CONNECT_RETRY_DELAY_MS)),
        ),
        (ScannerState::RetryWait, ScannerEvent::Woke) => Some(
            (ScannerState::Connecting, ScannerAction::Connect),
        ),
        (ScannerState::Connecting, ScannerEvent::Connected) => Some(at_boundary(stop_requested)),
        (ScannerState::Scanning, ScannerEvent::ListingFailed) => Some(
            (ScannerState::Stopped, ScannerAction::Stop),
        ),
        (ScannerState::Scanning, ScannerEvent::CycleEnded) => Some(
            (ScannerState::Resting, ScannerAction::RecordAndRest(scan_interval)),
        ),
        (ScannerState::Resting, ScannerEvent::Woke) => Some(at_boundary(stop_requested)),
        _ => None,
    }
}

/// Decides what the thread of a remote source does after `event` in `state`.
/// `stop_requested` is the shared stop flag as it stands now.
pub fn scanner_step(
    state: ScannerState,
    event: ScannerEvent,
    stop_requested: bool,
    scan_interval: u64,
) -> (next: Option<(ScannerState, ScannerAction)>)
    ensures
        next == scanner_transition(state, event, stop_requested, scan_interval),
{
    let boundary = if stop_requested {
        (ScannerState::Stopped, ScannerAction::Stop)
    } else {
        (ScannerState::Scanning, ScannerAction::ListDirectory)
    };
    match state {
        ScannerState::Idle => match event {
            ScannerEvent::Started => Some((ScannerState::Connecting, ScannerAction::Connect)),
            _ => None,
        },
        ScannerState::Connecting => match event {
            ScannerEvent::ConnectFailed => Some(
                (ScannerState::RetryWait, ScannerAction::RetryAfter(CONNECT_RETRY_DELAY_MS)),
            ),
            ScannerEvent::Connected => Some(boundary),
            _ => None,
        },
        ScannerState::RetryWait => match event {
            ScannerEvent::Woke => Some((ScannerState::Connecting, ScannerAction::Connect)),
            _ => None,
        },
        ScannerState::Scanning => match event {
            ScannerEvent::ListingFailed => Some((ScannerState::Stopped, ScannerAction::Stop)),
            ScannerEvent::CycleEnded => Some(
                (ScannerState::Resting, ScannerAction::RecordAndRest(scan_interval)),
            ),
            _ => None,
        },
        ScannerState::Resting => match event {
            ScannerEvent::Woke => Some(boundary),
            _ => None,
        },
        ScannerState::Stopped => None,
    }
}

} // verus!
