use cortex_dispatcher::dedup::{run_cycle, MemoryLedger};
use cortex_dispatcher::settings::SftpSource;
use cortex_dispatcher::sftp_scanner::{
    CycleEnd, LedgerRow, RemoteEntry, ScanAction, ScanCycle, ScanError, ScanReply, SftpDownload,
};

fn csv_source() -> SftpSource {
    SftpSource::new(
        "remote-a".to_string(),
        "sftp.example.org:22".to_string(),
        "cortex".to_string(),
        "/upload".to_string(),
        r"\.csv$",
        5000,
    )
    .unwrap()
}

fn entry(path: &str, size: u64) -> RemoteEntry {
    RemoteEntry { path: path.to_string(), size }
}

fn row(path: &str, size: i64) -> LedgerRow {
    LedgerRow { remote: "remote-a".to_string(), path: path.to_string(), size }
}

fn command(path: &str, size: u64, created: i64) -> SftpDownload {
    SftpDownload { created, size: Some(size), sftp_source: "remote-a".to_string(), path: path.to_string() }
}

#[test]
fn the_ledger_is_unique_on_the_triple() {
    let mut ledger = MemoryLedger::new();
    assert_eq!(ledger.len(), 0);
    assert!(!ledger.contains(&row("/upload/a.csv", 1)));
    assert!(ledger.insert(row("/upload/a.csv", 1)));
    assert!(ledger.contains(&row("/upload/a.csv", 1)));
    assert!(!ledger.insert(row("/upload/a.csv", 1)));
    assert_eq!(ledger.len(), 1);
    // Another size, another path or another remote is another row.
    assert!(!ledger.contains(&row("/upload/a.csv", 2)));
    assert!(!ledger.contains(&row("/upload/b.csv", 1)));
    assert!(!ledger.contains(&LedgerRow {
        remote: "remote-b".to_string(),
        path: "/upload/a.csv".to_string(),
        size: 1
    }));
    assert!(ledger.insert(row("/upload/a.csv", 2)));
    assert_eq!(ledger.len(), 2);
}

#[test]
fn scanning_the_same_listing_twice_emits_one_command() {
    let source = csv_source();
    let mut ledger = MemoryLedger::new();
    let (first, end) = run_cycle(&source, vec![entry("/upload/a.csv", 100)], &mut ledger, 1);
    assert_eq!(first, vec![command("/upload/a.csv", 100, 1)]);
    assert_eq!(end, CycleEnd::Completed);
    let (second, end) = run_cycle(&source, vec![entry("/upload/a.csv", 100)], &mut ledger, 2);
    assert!(second.is_empty());
    assert_eq!(end, CycleEnd::Completed);
    assert_eq!(ledger.len(), 1);
}

#[test]
fn a_changed_size_triggers_one_more_command() {
    let source = csv_source();
    let mut ledger = MemoryLedger::new();
    let (first, _) = run_cycle(&source, vec![entry("/upload/a.csv", 100)], &mut ledger, 1);
    assert_eq!(first.len(), 1);
    let (second, _) = run_cycle(&source, vec![entry("/upload/a.csv", 150)], &mut ledger, 2);
    assert_eq!(second, vec![command("/upload/a.csv", 150, 2)]);
    let (third, _) = run_cycle(&source, vec![entry("/upload/a.csv", 150)], &mut ledger, 3);
    assert!(third.is_empty());
    assert!(ledger.contains(&row("/upload/a.csv", 100)));
    assert!(ledger.contains(&row("/upload/a.csv", 150)));
}

#[test]
fn commands_come_in_the_order_of_the_listing_and_only_for_matches() {
    let source = csv_source();
    let mut ledger = MemoryLedger::new();
    ledger.insert(row("/upload/known.csv", 7));
    let listing = vec![
        entry("/upload/b.csv", 2),
        entry("/upload/skip.txt", 3),
        entry("/upload/known.csv", 7),
        entry("/upload/a.csv", 1),
        entry("/upload/b.csv", 2),
    ];
    let (commands, end) = run_cycle(&source, listing, &mut ledger, 9);
    assert_eq!(commands, vec![command("/upload/b.csv", 2, 9), command("/upload/a.csv", 1, 9)]);
    assert_eq!(end, CycleEnd::Completed);
    assert_eq!(ledger.len(), 3);
}

#[test]
fn an_abort_keeps_what_was_emitted_before_it() {
    let source = csv_source();
    let mut ledger = MemoryLedger::new();
    let listing = vec![
        entry("/upload/a.csv", 1),
        entry("/upload/huge.bin", u64::MAX),
        entry("/upload/b.csv", 2),
    ];
    let (commands, end) = run_cycle(&source, listing, &mut ledger, 4);
    assert_eq!(commands, vec![command("/upload/a.csv", 1, 4)]);
    assert_eq!(end, CycleEnd::Aborted(ScanError::SizeOutOfRange));
    assert!(ledger.contains(&row("/upload/a.csv", 1)));
    assert!(!ledger.contains(&row("/upload/b.csv", 2)));
}

#[test]
fn a_row_that_was_not_written_is_emitted_again() {
    // Delivery is at least once: where the ledger write did not persist, the
    // next cycle finds the row unknown and emits the command again.
    let source = csv_source();
    let ledger = MemoryLedger::new();
    let mut emitted = 0;
    for _ in 0..2 {
        let mut cycle = ScanCycle::new(&source, vec![entry("/upload/a.csv", 1)]);
        let mut action = cycle.step_at(ScanReply::Begin, 0);
        loop {
            action = match action {
                ScanAction::QueryLedger(asked) => {
                    cycle.step_at(ScanReply::Found(ledger.contains(&asked)), 0)
                }
                ScanAction::SendCommand(_) => {
                    emitted += 1;
                    cycle.step_at(ScanReply::Sent(true), 0)
                }
                ScanAction::InsertLedger(_) => cycle.step_at(ScanReply::Inserted(false), 0),
                ScanAction::EndCycle(end) => {
                    assert_eq!(end, CycleEnd::Completed);
                    break;
                }
            };
        }
    }
    assert_eq!(emitted, 2);
}
