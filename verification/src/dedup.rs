//! Deduplication of scan cycles against the ledger: what a cycle emits when
//! the ledger answers faithfully, the laws that follow, and a ledger held in
//! memory against which a whole cycle can be run.

use vstd::prelude::*;
use crate::settings::SftpSource;
use crate::sftp_scanner::{
    advance, command_for, entry_verdict, CycleEnd, EntryVerdict, LedgerKey, LedgerRow, Progress,
    RemoteEntry, ScanAction, ScanActionView, ScanCycle, ScanPhase, ScanReply, SftpDownload,
    SftpDownloadView,
};

verus! {

/// What a scan cycle comes to: the rows for which a command was emitted, in
/// the order of emission, the ledger afterwards, and how the cycle ended.
pub ghost struct CycleOutcome {
    pub commands: Seq<LedgerKey>,
    pub ledger: Set<LedgerKey>,
    pub end: CycleEnd,
}

/// The outcome of a cycle over the entries from index `from` on, where the
/// ledger holds `ledger`, every command is taken by the channel and every row
/// is written: a row that the ledger holds is suppressed, a row that it does
/// not hold is emitted and recorded.
pub open spec fn ideal_cycle(
    source: &SftpSource,
    entries: Seq<RemoteEntry>,
    from: int,
    ledger: Set<LedgerKey>,
) -> CycleOutcome
    decreases entries.len() - from,
{
    if from >= entries.len() {
        CycleOutcome { commands: Seq::empty(), ledger, end: CycleEnd::Completed }
    } else {
        match entry_verdict(source, &entries[from]) {
            EntryVerdict::Abort(e) => CycleOutcome {
                commands: Seq::empty(),
                ledger,
                end: CycleEnd::Aborted(e),
            },
            EntryVerdict::Skip => ideal_cycle(source, entries, from + 1, ledger),
            EntryVerdict::Inquire(key) => if ledger.contains(key) {
                ideal_cycle(source, entries, from + 1, ledger)
            } else {
                let rest = ideal_cycle(source, entries, from + 1, ledger.insert(key));
                CycleOutcome {
                    commands: seq![key] + rest.commands,
                    ledger: rest.ledger,
                    end: rest.end,
                }
            },
        }
    }
}

/// Whether a cycle gets as far as entry `index` when it starts at `from`: no
/// entry before it ends the cycle.
pub open spec fn reaches(source: &SftpSource, entries: Seq<RemoteEntry>, from: int, index: int)
    -> bool {
    forall|j: int|
        from <= j < index ==> !(#[trigger] entry_verdict(source, &entries[j]) is Abort)
}

proof fn lemma_prepend(key: LedgerKey, rest: Seq<LedgerKey>)
    ensures
        forall|k: LedgerKey|
            #![trigger (seq![key] + rest).contains(k)]
            #![trigger rest.contains(k)]
            (seq![key] + rest).contains(k) <==> (k == key || rest.contains(k)),
        !rest.contains(key) && rest.no_duplicates() ==> (seq![key] + rest).no_duplicates(),
{
    let all = seq![key] + rest;
    assert forall|k: LedgerKey| all.contains(k) <==> (k == key || rest.contains(k)) by {
        if all.contains(k) {
            let i = choose|i: int| 0 <= i < all.len() && all[i] == k;
            if i > 0 {
                assert(rest[i - 1] == k);
            }
        }
        if k == key {
            assert(all[0] == k);
        }
        if rest.contains(k) {
            let i = choose|i: int| 0 <= i < rest.len() && rest[i] == k;
            assert(all[i + 1] == k);
        }
    }
    if !rest.contains(key) && rest.no_duplicates() {
        assert forall|i: int, j: int| 0 <= i < all.len() && 0 <= j < all.len() && i != j implies all[i]
            != all[j] by {
            if i > 0 && j > 0 {
                assert(rest[i - 1] != rest[j - 1]);
            } else if i > 0 {
                assert(rest.contains(rest[i - 1]));
            } else {
                assert(rest.contains(rest[j - 1]));
            }
        }
    }
}

/// What a cycle emits and what it records: no row is emitted twice, no row
/// that the ledger held is emitted, the ledger afterwards holds what it held
/// and what was emitted, and every emitted row is the row of an entry.
pub proof fn lemma_cycle_accounts(
    source: &SftpSource,
    entries: Seq<RemoteEntry>,
    from: int,
    ledger: Set<LedgerKey>,
)
    requires
        0 <= from <= entries.len(),
    ensures
        ({
            let out = ideal_cycle(source, entries, from, ledger);
            &&& out.commands.no_duplicates()
            &&& forall|k: LedgerKey| #[trigger] out.commands.contains(k) ==> !ledger.contains(k)
            &&& forall|k: LedgerKey| #[trigger]
                out.ledger.contains(k) <==> (ledger.contains(k) || out.commands.contains(k))
            &&& forall|k: LedgerKey| #[trigger]
                out.commands.contains(k) ==> exists|i: int|
                    from <= i < entries.len() && #[trigger] entry_verdict(source, &entries[i])
                        == EntryVerdict::Inquire(k)
        }),
    decreases entries.len() - from,
{
    let out = ideal_cycle(source, entries, from, ledger);
    if from < entries.len() {
        match entry_verdict(source, &entries[from]) {
            EntryVerdict::Abort(e) => {
                assert(out.commands.len() == 0);
            },
            EntryVerdict::Skip => {
                lemma_cycle_accounts(source, entries, from + 1, ledger);
                assert(out == ideal_cycle(source, entries, from + 1, ledger));
            },
            EntryVerdict::Inquire(key) => {
                if ledger.contains(key) {
                    lemma_cycle_accounts(source, entries, from + 1, ledger);
                    assert(out == ideal_cycle(source, entries, from + 1, ledger));
                } else {
                    let rest = ideal_cycle(source, entries, from + 1, ledger.insert(key));
                    lemma_cycle_accounts(source, entries, from + 1, ledger.insert(key));
                    lemma_prepend(key, rest.commands);
                    assert(out.commands == seq![key] + rest.commands);
                    assert forall|k: LedgerKey| #[trigger] out.commands.contains(k) implies exists|
                        i: int,
                    |
                        from <= i < entries.len() && #[trigger] entry_verdict(source, &entries[i])
                            == EntryVerdict::Inquire(k) by {
                        if k == key {
                            assert(entry_verdict(source, &entries[from]) == EntryVerdict::Inquire(k));
                        } else {
                            assert(rest.commands.contains(k));
                        }
                    }
                }
            },
        }
    } else {
        assert(out.commands.len() == 0);
    }
}

/// A row that the ledger does not hold, of an entry that the cycle gets to, is
/// emitted.
pub proof fn lemma_unknown_row_is_emitted(
    source: &SftpSource,
    entries: Seq<RemoteEntry>,
    from: int,
    ledger: Set<LedgerKey>,
    index: int,
    key: LedgerKey,
)
    requires
        0 <= from <= index < entries.len(),
        entry_verdict(source, &entries[index]) == EntryVerdict::Inquire(key),
        reaches(source, entries, from, index),
        !ledger.contains(key),
    ensures
        ideal_cycle(source, entries, from, ledger).commands.contains(key),
    decreases index - from,
{
    let out = ideal_cycle(source, entries, from, ledger);
    if from == index {
        let rest = ideal_cycle(source, entries, from + 1, ledger.insert(key));
        lemma_prepend(key, rest.commands);
    } else {
        assert(!(entry_verdict(source, &entries[from]) is Abort));
        match entry_verdict(source, &entries[from]) {
            EntryVerdict::Abort(e) => {},
            EntryVerdict::Skip => {
                lemma_unknown_row_is_emitted(source, entries, from + 1, ledger, index, key);
            },
            EntryVerdict::Inquire(other) => {
                if ledger.contains(other) {
                    lemma_unknown_row_is_emitted(source, entries, from + 1, ledger, index, key);
                } else {
                    let rest = ideal_cycle(source, entries, from + 1, ledger.insert(other));
                    lemma_prepend(other, rest.commands);
                    if other != key {
                        lemma_unknown_row_is_emitted(
                            source,
                            entries,
                            from + 1,
                            ledger.insert(other),
                            index,
                            key,
                        );
                    }
                }
            },
        }
    }
}

/// Dedup idempotence. Where a first cycle gets to a file that the ledger does
/// not know, and the ledger keeps what the cycle wrote, exactly one command is
/// emitted for that file and size in the first cycle and none in a second
/// cycle, whatever the second listing holds: the same name with the same size
/// is suppressed.
pub proof fn law_rescan_emits_once(
    source: &SftpSource,
    first: Seq<RemoteEntry>,
    second: Seq<RemoteEntry>,
    ledger: Set<LedgerKey>,
    index: int,
    key: LedgerKey,
)
    requires
        0 <= index < first.len(),
        entry_verdict(source, &first[index]) == EntryVerdict::Inquire(key),
        reaches(source, first, 0, index),
        !ledger.contains(key),
    ensures
        ({
            let one = ideal_cycle(source, first, 0, ledger);
            let two = ideal_cycle(source, second, 0, one.ledger);
            &&& one.commands.contains(key)
            &&& one.commands.no_duplicates()
            &&& !two.commands.contains(key)
        }),
{
    let one = ideal_cycle(source, first, 0, ledger);
    lemma_unknown_row_is_emitted(source, first, 0, ledger, index, key);
    lemma_cycle_accounts(source, first, 0, ledger);
    lemma_cycle_accounts(source, second, 0, one.ledger);
}

/// Dedup re-trigger. Where a file is listed in a second cycle with a size
/// that it had neither in the ledger nor in the first listing, and the second
/// cycle gets to it, exactly one command is emitted for it in the second
/// cycle.
pub proof fn law_size_change_retriggers(
    source: &SftpSource,
    first: Seq<RemoteEntry>,
    second: Seq<RemoteEntry>,
    ledger: Set<LedgerKey>,
    index: int,
    key: LedgerKey,
)
    requires
        0 <= index < second.len(),
        entry_verdict(source, &second[index]) == EntryVerdict::Inquire(key),
        reaches(source, second, 0, index),
        !ledger.contains(key),
        forall|i: int|
            0 <= i < first.len() && (#[trigger] first[i]).path@ == key.path ==> first[i].size
                != key.size,
    ensures
        ({
            let one = ideal_cycle(source, first, 0, ledger);
            let two = ideal_cycle(source, second, 0, one.ledger);
            &&& two.commands.contains(key)
            &&& two.commands.no_duplicates()
        }),
{
    let one = ideal_cycle(source, first, 0, ledger);
    lemma_cycle_accounts(source, first, 0, ledger);
    if one.commands.contains(key) {
        let i = choose|i: int|
            0 <= i < first.len() && #[trigger] entry_verdict(source, &first[i])
                == EntryVerdict::Inquire(key);
        assert(first[i].path@ == key.path);
        assert(first[i].size == key.size);
    }
    lemma_unknown_row_is_emitted(source, second, 0, one.ledger, index, key);
    lemma_cycle_accounts(source, second, 0, one.ledger);
}

/// Where a cycle comes to rest: between `from` and the end of the listing,
/// having passed over every entry before the resting place, which is an entry
/// to ask the ledger about, an entry that ends the cycle, or the end.
pub proof fn lemma_advance_rests(source: &SftpSource, entries: Seq<RemoteEntry>, from: int)
    requires
        0 <= from <= entries.len(),
    ensures
        ({
            let rest = advance(source, entries, from);
            &&& from <= rest.position <= entries.len()
            &&& forall|j: int|
                from <= j < rest.position ==> #[trigger] entry_verdict(source, &entries[j])
                    == EntryVerdict::Skip
            &&& match rest.action {
                ScanActionView::QueryLedger(key) => {
                    &&& rest.phase == ScanPhase::AwaitingLookup
                    &&& rest.position < entries.len()
                    &&& entry_verdict(source, &entries[rest.position]) == EntryVerdict::Inquire(
                        key,
                    )
                },
                ScanActionView::EndCycle(CycleEnd::Completed) => {
                    &&& rest.phase == ScanPhase::Ended
                    &&& rest.position == entries.len()
                },
                ScanActionView::EndCycle(CycleEnd::Aborted(e)) => {
                    &&& rest.phase == ScanPhase::Ended
                    &&& rest.position < entries.len()
                    &&& entry_verdict(source, &entries[rest.position]) == EntryVerdict::Abort(e)
                },
                _ => false,
            }
        }),
    decreases entries.len() - from,
{
    if from < entries.len() {
        if entry_verdict(source, &entries[from]) == EntryVerdict::Skip {
            lemma_advance_rests(source, entries, from + 1);
        }
    }
}

/// What is left of a cycle that rests where `rest` says, the ledger holding
/// `ledger`.
pub open spec fn remaining(
    source: &SftpSource,
    entries: Seq<RemoteEntry>,
    rest: Progress,
    ledger: Set<LedgerKey>,
) -> CycleOutcome {
    match rest.action {
        ScanActionView::EndCycle(end) => CycleOutcome { commands: Seq::empty(), ledger, end },
        _ => ideal_cycle(source, entries, rest.position, ledger),
    }
}

/// Passing over entries changes nothing: a cycle from `from` comes to what is
/// left of it at its resting place.
pub proof fn lemma_advance_keeps_outcome(
    source: &SftpSource,
    entries: Seq<RemoteEntry>,
    from: int,
    ledger: Set<LedgerKey>,
)
    requires
        0 <= from <= entries.len(),
    ensures
        ideal_cycle(source, entries, from, ledger) == remaining(
            source,
            entries,
            advance(source, entries, from),
            ledger,
        ),
    decreases entries.len() - from,
{
    if from < entries.len() {
        if entry_verdict(source, &entries[from]) == EntryVerdict::Skip {
            lemma_advance_keeps_outcome(source, entries, from + 1, ledger);
        }
    }
}

/// A dedup ledger held in memory: the rows seen so far, none of them twice.
#[derive(Debug)]
pub struct MemoryLedger {
    rows: Vec<LedgerRow>,
}

impl View for MemoryLedger {
    type V = Set<LedgerKey>;

    closed spec fn view(&self) -> Set<LedgerKey> {
        Set::new(|key: LedgerKey| exists|i: int| 0 <= i < self.rows.len() && (#[trigger] self.rows[i])@ == key)
    }
}

impl MemoryLedger {
    /// The ledger's invariant: it is unique on the triple.
    pub closed spec fn wf(&self) -> bool {
        forall|i: int, j: int|
            0 <= i < j < self.rows.len() ==> (#[trigger] self.rows[i])@ != (#[trigger] self.rows[j])@
    }

    /// The number of rows, for contracts.
    pub closed spec fn spec_len(&self) -> nat {
        self.rows.len() as nat
    }

    /// A ledger without rows.
    pub fn new() -> (ledger: MemoryLedger)
        ensures
            ledger.wf(),
            ledger@ == Set::<LedgerKey>::empty(),
            ledger.spec_len() == 0,
    {
        let ledger = MemoryLedger { rows: Vec::new() };
        assert(ledger@ =~= Set::<LedgerKey>::empty());
        ledger
    }

    /// The number of rows.
    pub fn len(&self) -> (n: usize)
        ensures
            n == self.spec_len(),
    {
        self.rows.len()
    }

    /// Whether the ledger holds a row with the triple of `row`.
    pub fn contains(&self, row: &LedgerRow) -> (found: bool)
        ensures
            found == self@.contains(row@),
    {
        let mut i: usize = 0;
        while i < self.rows.len()
            invariant
                i <= self.rows.len(),
                forall|j: int| 0 <= j < i ==> (#[trigger] self.rows[j])@ != row@,
            decreases self.rows.len() - i,
        {
            let held = &self.rows[i];
            if held.remote == row.remote && held.path == row.path && held.size == row.size {
                assert(held@ == row@);
                return true;
            }
            i = i + 1;
        }
        false
    }

    /// Records `row`, unless a row with its triple is held already. Says
    /// whether the row was new.
    pub fn insert(&mut self, row: LedgerRow) -> (added: bool)
        requires
            old(self).wf(),
        ensures
            final(self).wf(),
            final(self)@ == old(self)@.insert(row@),
            added == !old(self)@.contains(row@),
            final(self).spec_len() == old(self).spec_len() + if added { 1nat } else { 0nat },
    {
        if self.contains(&row) {
            assert(self@ =~= self@.insert(row@));
            false
        } else {
            let ghost before = self.rows@;
            self.rows.push(row);
            assert forall|key: LedgerKey| self@.contains(key) <==> old(self)@.insert(row@).contains(
                key,
            ) by {
                if self@.contains(key) {
                    let i = choose|i: int| 0 <= i < self.rows.len() && (#[trigger] self.rows[i])@ == key;
                    if i < before.len() {
                        assert(before[i]@ == key);
                    }
                }
                if old(self)@.contains(key) {
                    let i = choose|i: int| 0 <= i < before.len() && (#[trigger] before[i])@ == key;
                    assert(self.rows[i]@ == key);
                }
                if key == row@ {
                    assert(self.rows[before.len() as int]@ == key);
                }
            }
            assert(self@ =~= old(self)@.insert(row@));
            assert forall|i: int, j: int| 0 <= i < j < self.rows.len() implies (#[trigger] self.rows[i])@
                != (#[trigger] self.rows[j])@ by {
                if j == before.len() {
                    assert(before[i]@ != row@);
                } else {
                    assert(before[i]@ != before[j]@);
                }
            }
            true
        }
    }
}

/// The commands for the rows `keys`, all made at `created`.
pub open spec fn commands_for(keys: Seq<LedgerKey>, created: int) -> Seq<SftpDownloadView> {
    keys.map_values(|key: LedgerKey| command_for(key, created))
}

/// The values of `commands`.
pub open spec fn command_views(commands: Seq<SftpDownload>) -> Seq<SftpDownloadView> {
    commands.map_values(|command: SftpDownload| command@)
}

/// Runs one whole scan cycle of `source` over `entries` against `ledger`,
/// every command being made at `now` and taken: the cycle of
/// [`ideal_cycle`]. Hands back the commands in the order of emission and how
/// the cycle ended; the ledger has recorded the emitted rows.
pub fn run_cycle(
    source: &SftpSource,
    entries: Vec<RemoteEntry>,
    ledger: &mut MemoryLedger,
    now: i64,
) -> (report: (Vec<SftpDownload>, CycleEnd))
    requires
        old(ledger).wf(),
    ensures
        final(ledger).wf(),
        final(ledger)@ == ideal_cycle(source, entries@, 0, old(ledger)@).ledger,
        command_views(report.0@) == commands_for(
            ideal_cycle(source, entries@, 0, old(ledger)@).commands,
            now as int,
        ),
        report.1 == ideal_cycle(source, entries@, 0, old(ledger)@).end,
{
    let ghost listing = entries@;
    let ghost goal = ideal_cycle(source, listing, 0, ledger@);
    let ghost mut emitted: Seq<LedgerKey> = Seq::empty();
    let ghost mut rest = advance(source, listing, 0);
    let mut commands: Vec<SftpDownload> = Vec::new();
    let mut cycle = ScanCycle::new(source, entries);
    let mut action = cycle.step_at(ScanReply::Begin, now);
    proof {
        lemma_advance_rests(source, listing, 0);
        lemma_advance_keeps_outcome(source, listing, 0, ledger@);
        assert(command_views(commands@) =~= commands_for(emitted, now as int));
        assert(emitted + goal.commands =~= goal.commands);
    }
    loop
        invariant
            listing == entries@,
            goal == ideal_cycle(source, listing, 0, old(ledger)@),
            ledger.wf(),
            cycle.wf(),
            cycle.source() == source,
            cycle.entries() == listing,
            cycle.position() == rest.position,
            cycle.spec_phase() == rest.phase,
            action@ == rest.action,
            0 <= rest.position <= listing.len(),
            rest.action is QueryLedger || rest.action is EndCycle,
            rest.action is QueryLedger ==> rest.phase == ScanPhase::AwaitingLookup
                && rest.action == ScanActionView::QueryLedger(cycle.current_key()),
            rest.action is EndCycle ==> rest.phase == ScanPhase::Ended,
            command_views(commands@) == commands_for(emitted, now as int),
            goal.commands == emitted + remaining(source, listing, rest, ledger@).commands,
            goal.ledger == remaining(source, listing, rest, ledger@).ledger,
            goal.end == remaining(source, listing, rest, ledger@).end,
        decreases listing.len() - rest.position + if rest.action is EndCycle { 0int } else { 1int },
    {
        match action {
            ScanAction::EndCycle(end) => {
                proof {
                    assert(emitted + Seq::<LedgerKey>::empty() =~= emitted);
                }
                return (commands, end);
            },
            ScanAction::QueryLedger(row) => {
                let ghost key = row@;
                let ghost at = rest.position;
                let ghost held = ledger@;
                let ghost sent = commands@;
                let found = ledger.contains(&row);
                if found {
                    action = cycle.step_at(ScanReply::Found(true), now);
                } else {
                    let send = cycle.step_at(ScanReply::Found(false), now);
                    assert(send is SendCommand);
                    if let ScanAction::SendCommand(command) = send {
                        commands.push(command);
                    }
                    let write = cycle.step_at(ScanReply::Sent(true), now);
                    assert(write is InsertLedger);
                    if let ScanAction::InsertLedger(written) = write {
                        ledger.insert(written);
                    }
                    action = cycle.step_at(ScanReply::Inserted(true), now);
                    proof {
                        assert(commands@ == sent.push(commands@.last()));
                        assert(commands@.last()@ == command_for(key, now as int));
                        assert(command_views(commands@) =~= command_views(sent).push(
                            command_for(key, now as int),
                        ));
                        assert(commands_for(emitted.push(key), now as int) =~= commands_for(
                            emitted,
                            now as int,
                        ).push(command_for(key, now as int)));
                        let after = ideal_cycle(source, listing, at + 1, held.insert(key));
                        assert(emitted + (seq![key] + after.commands) =~= emitted.push(key)
                            + after.commands);
                        emitted = emitted.push(key);
                    }
                }
                proof {
                    rest = advance(source, listing, at + 1);
                    lemma_advance_rests(source, listing, at + 1);
                    lemma_advance_keeps_outcome(source, listing, at + 1, ledger@);
                }
            },
            _ => vstd::pervasive::unreached(),
        }
    }
}

} // verus!
