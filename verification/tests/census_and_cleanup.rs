use ech_workers_client::census::{
    census_command, is_worker_present, termination_command, text_mentions, CensusReport, Platform,
};
use ech_workers_client::cleanup::{
    CleanupAction, CleanupEvent, OrphanCleanup, CLEANUP_ROUNDS, CLEANUP_WAIT_MILLIS,
};

fn listing(text: &str) -> CensusReport {
    CensusReport::Listing(text.to_string())
}

const FOUND: &str = "\"Image Name\",\"PID\"\r\n\"ech-workers.exe\",\"4242\",\"Console\"\r\n";
const CLEAN: &str = "INFO: No tasks are running which match the specified criteria.\r\n";

#[test]
fn text_search_finds_a_word() {
    assert!(text_mentions("hello world", "world"));
    assert!(text_mentions("hello world", "hello"));
    assert!(text_mentions("hello world", "o w"));
    assert!(text_mentions("abc", "abc"));
    assert!(text_mentions("aaab", "aab"));
}

#[test]
fn text_search_misses_what_is_absent() {
    assert!(!text_mentions("hello world", "worlds"));
    assert!(!text_mentions("abc", "abcd"));
    assert!(!text_mentions("", "a"));
    assert!(!text_mentions("ech-worker", "ech-workers"));
}

#[test]
fn text_search_agrees_with_contains() {
    let texts = ["", "a", "ech-workers.exe", "xech-workersx", "ππech-workersπ", "ech-work"];
    let words = ["", "a", "ech-workers", "ech-workers.exe", "π"];
    for text in texts {
        for word in words {
            assert_eq!(text_mentions(text, word), text.contains(word), "{:?} in {:?}", word, text);
        }
    }
}

#[test]
fn census_commands() {
    let windows = census_command(Platform::Windows);
    assert_eq!(windows.program, "tasklist");
    assert_eq!(windows.args, vec!["/FI", "IMAGENAME eq ech-workers.exe", "/FO", "CSV"]);
    let other = census_command(Platform::Other);
    assert_eq!(other.program, "ps");
    assert_eq!(other.args, vec!["aux"]);
    let kill = termination_command();
    assert_eq!(kill.program, "taskkill");
    assert_eq!(kill.args, vec!["/F", "/IM", "ech-workers.exe", "/T"]);
}

#[test]
fn census_reads_the_listing() {
    assert!(is_worker_present(&listing(FOUND), Platform::Windows));
    assert!(!is_worker_present(&listing(CLEAN), Platform::Windows));
    assert!(!is_worker_present(&CensusReport::Unavailable, Platform::Windows));
    assert!(is_worker_present(&listing("root 1 ./ech-workers -f x"), Platform::Other));
    assert!(!is_worker_present(&listing("root 1 ./ech-workers -f x"), Platform::Windows));
    assert!(!is_worker_present(&CensusReport::Unavailable, Platform::Other));
}

#[test]
fn cleanup_constants() {
    assert_eq!(CLEANUP_ROUNDS, 3);
    assert_eq!(CLEANUP_WAIT_MILLIS, 1000);
}

#[test]
fn cleanup_ends_on_a_clean_first_listing() {
    let mut cleanup = OrphanCleanup::begin(Platform::Windows);
    assert_eq!(cleanup.pending(), CleanupAction::TakeSnapshot);
    cleanup.advance(&CleanupEvent::Snapshot(listing(CLEAN)));
    assert_eq!(cleanup.pending(), CleanupAction::Finish);
    assert!(cleanup.is_finished());
}

#[test]
fn cleanup_has_nothing_to_do_elsewhere() {
    let cleanup = OrphanCleanup::begin(Platform::Other);
    assert!(cleanup.is_finished());
    assert_eq!(cleanup.pending(), CleanupAction::Finish);
}

#[test]
fn cleanup_kills_waits_and_looks_again() {
    let mut cleanup = OrphanCleanup::begin(Platform::Windows);
    cleanup.advance(&CleanupEvent::Snapshot(listing(FOUND)));
    assert_eq!(cleanup.pending(), CleanupAction::KillAll);
    cleanup.advance(&CleanupEvent::KillReturned(true));
    assert_eq!(cleanup.pending(), CleanupAction::Wait);
    cleanup.advance(&CleanupEvent::WaitOver);
    assert_eq!(cleanup.pending(), CleanupAction::TakeSnapshot);
    cleanup.advance(&CleanupEvent::Snapshot(listing(CLEAN)));
    assert!(cleanup.is_finished());
    assert_eq!(cleanup.round(), 1);
}

#[test]
fn cleanup_gives_up_after_three_rounds() {
    let mut cleanup = OrphanCleanup::begin(Platform::Windows);
    let mut kills = 0;
    let mut snapshots = 0;
    let mut waits = 0;
    let mut steps = 0;
    while !cleanup.is_finished() {
        steps += 1;
        assert!(steps <= 15);
        match cleanup.pending() {
            CleanupAction::TakeSnapshot => {
                snapshots += 1;
                cleanup.advance(&CleanupEvent::Snapshot(listing(FOUND)));
            }
            CleanupAction::KillAll => {
                kills += 1;
                cleanup.advance(&CleanupEvent::KillReturned(true));
            }
            CleanupAction::Wait => {
                waits += 1;
                cleanup.advance(&CleanupEvent::WaitOver);
            }
            CleanupAction::Finish => unreachable!(),
        }
    }
    assert_eq!(kills, 3);
    assert_eq!(snapshots, 6);
    assert_eq!(waits, 5);
    assert_eq!(cleanup.round(), 3);
}

#[test]
fn cleanup_retries_when_the_listing_is_unavailable() {
    let mut cleanup = OrphanCleanup::begin(Platform::Windows);
    cleanup.advance(&CleanupEvent::Snapshot(CensusReport::Unavailable));
    assert_eq!(cleanup.pending(), CleanupAction::Wait);
    cleanup.advance(&CleanupEvent::WaitOver);
    assert_eq!(cleanup.round(), 2);
    assert_eq!(cleanup.pending(), CleanupAction::TakeSnapshot);
    cleanup.advance(&CleanupEvent::Snapshot(CensusReport::Unavailable));
    cleanup.advance(&CleanupEvent::WaitOver);
    assert_eq!(cleanup.round(), 3);
    cleanup.advance(&CleanupEvent::Snapshot(CensusReport::Unavailable));
    assert!(cleanup.is_finished());
}

#[test]
fn cleanup_retries_when_the_kill_cannot_run() {
    let mut cleanup = OrphanCleanup::begin(Platform::Windows);
    cleanup.advance(&CleanupEvent::Snapshot(listing(FOUND)));
    cleanup.advance(&CleanupEvent::KillReturned(false));
    assert_eq!(cleanup.pending(), CleanupAction::Wait);
    cleanup.advance(&CleanupEvent::WaitOver);
    assert_eq!(cleanup.round(), 2);
    assert_eq!(cleanup.pending(), CleanupAction::TakeSnapshot);
}

#[test]
fn cleanup_ignores_reports_it_does_not_wait_for() {
    let mut cleanup = OrphanCleanup::begin(Platform::Windows);
    cleanup.advance(&CleanupEvent::WaitOver);
    cleanup.advance(&CleanupEvent::KillReturned(true));
    assert_eq!(cleanup.pending(), CleanupAction::TakeSnapshot);
    assert_eq!(cleanup.round(), 1);
    cleanup.advance(&CleanupEvent::Snapshot(listing(CLEAN)));
    cleanup.advance(&CleanupEvent::Snapshot(listing(FOUND)));
    assert!(cleanup.is_finished());
}
