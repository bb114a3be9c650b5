use kev_push::detector::{Action, Detector, Event, Outcome, RunError};
use kev_push::model::{Kev, Vulnerability};

fn entry(cve: &str) -> Vulnerability {
    Vulnerability {
        cve_id: cve.to_string(),
        vendor_project: "Acme".to_string(),
        product: "Widget".to_string(),
        vulnerability_name: "Widget RCE".to_string(),
        date_added: "2024-01-01".to_string(),
        short_description: "Remote code execution.".to_string(),
        required_action: "Apply updates.".to_string(),
        due_date: "2024-01-22".to_string(),
        notes: String::new(),
    }
}

fn catalog(released: &str, count: i64) -> Kev {
    Kev {
        title: "CISA Catalog of Known Exploited Vulnerabilities".to_string(),
        catalog_version: Some(released.replace('-', ".")),
        date_released: released.to_string(),
        count: Some(count),
        vulnerabilities: Some((0..count).map(|i| entry(&format!("CVE-2024-{:04}", i))).collect()),
    }
}

#[derive(Debug, Clone, PartialEq)]
enum Stored {
    Absent,
    Unreadable,
    Holds(Kev),
}

struct Record {
    result: Result<Outcome, RunError>,
    fetches: usize,
    writes: usize,
    notified: Vec<Kev>,
}

/// Runs the detector against an in-memory snapshot and remote feed.
fn run_once(stored: &mut Stored, remote: Option<&Kev>, write_ok: bool) -> Record {
    let mut fetches = 0;
    let mut writes = 0;
    let mut notified = Vec::new();
    let (mut detector, mut action) = Detector::start();
    loop {
        let event = match action {
            Action::Finish(result) => return Record { result, fetches, writes, notified },
            Action::CheckCache => Event::CachePresence(*stored != Stored::Absent),
            Action::LoadCache => match stored {
                Stored::Holds(doc) => Event::CacheLoaded(doc.clone()),
                _ => Event::CacheLoadFailed,
            },
            Action::Fetch => {
                fetches += 1;
                match remote {
                    Some(doc) => Event::Fetched(doc.clone()),
                    None => Event::FetchFailed,
                }
            }
            Action::Save => {
                if write_ok {
                    *stored = Stored::Holds(detector.document().unwrap().clone());
                    writes += 1;
                    Event::Saved
                } else {
                    Event::SaveFailed
                }
            }
            Action::Notify => {
                notified.push(detector.document().unwrap().clone());
                Event::Notified
            }
        };
        let (d, a) = detector.advance(event);
        detector = d;
        action = a;
    }
}

#[test]
fn first_run_writes_baseline_without_notifying() {
    let remote = catalog("2024-01-01", 2);
    let mut stored = Stored::Absent;
    let r = run_once(&mut stored, Some(&remote), true);
    assert_eq!(r.result, Ok(Outcome::Baseline));
    assert_eq!(stored, Stored::Holds(remote.clone()));
    assert_eq!(r.writes, 1);
    assert!(r.notified.is_empty());
}

#[test]
fn first_run_fetch_failure_leaves_no_snapshot() {
    let mut stored = Stored::Absent;
    let r = run_once(&mut stored, None, true);
    assert_eq!(r.result, Err(RunError::Fetch));
    assert_eq!(stored, Stored::Absent);
    assert_eq!(r.writes, 0);
    assert!(r.notified.is_empty());
}

#[test]
fn unchanged_release_writes_nothing() {
    let cached = catalog("2024-01-01", 2);
    // Other fields differ, but the release date is the comparison key.
    let remote = catalog("2024-01-01", 3);
    let mut stored = Stored::Holds(cached.clone());
    let r = run_once(&mut stored, Some(&remote), true);
    assert_eq!(r.result, Ok(Outcome::Unchanged));
    assert_eq!(stored, Stored::Holds(cached));
    assert_eq!(r.writes, 0);
    assert!(r.notified.is_empty());
}

#[test]
fn changed_release_overwrites_and_notifies_once() {
    let cached = catalog("2024-01-01", 2);
    let remote = catalog("2024-02-15", 3);
    let mut stored = Stored::Holds(cached);
    let r = run_once(&mut stored, Some(&remote), true);
    assert_eq!(r.result, Ok(Outcome::Updated));
    assert_eq!(stored, Stored::Holds(remote.clone()));
    assert_eq!(r.writes, 1);
    assert_eq!(r.notified, vec![remote]);
}

#[test]
fn reformatted_release_date_counts_as_update() {
    let cached = catalog("2024-02-15", 1);
    let remote = catalog("2024-2-15", 1);
    let mut stored = Stored::Holds(cached);
    let r = run_once(&mut stored, Some(&remote), true);
    assert_eq!(r.result, Ok(Outcome::Updated));
    assert_eq!(r.notified.len(), 1);
}

#[test]
fn failed_save_does_not_notify() {
    let cached = catalog("2024-01-01", 2);
    let remote = catalog("2024-02-15", 3);
    let mut stored = Stored::Holds(cached.clone());
    let r = run_once(&mut stored, Some(&remote), false);
    assert_eq!(r.result, Err(RunError::CacheWrite));
    assert_eq!(stored, Stored::Holds(cached));
    assert!(r.notified.is_empty());
}

#[test]
fn fetch_failure_with_snapshot_keeps_it() {
    let cached = catalog("2024-01-01", 2);
    let mut stored = Stored::Holds(cached.clone());
    let r = run_once(&mut stored, None, true);
    assert_eq!(r.result, Err(RunError::Fetch));
    assert_eq!(stored, Stored::Holds(cached));
    assert!(r.notified.is_empty());
}

#[test]
fn second_run_with_same_remote_is_stable() {
    let remote = catalog("2024-02-15", 3);
    let mut stored = Stored::Holds(catalog("2024-01-01", 2));
    run_once(&mut stored, Some(&remote), true);
    let after_first = stored.clone();
    let second = run_once(&mut stored, Some(&remote), true);
    assert_eq!(second.result, Ok(Outcome::Unchanged));
    assert_eq!(second.writes, 0);
    assert!(second.notified.is_empty());
    assert_eq!(stored, after_first);
}

#[test]
fn unreadable_snapshot_stops_before_fetch() {
    let remote = catalog("2024-02-15", 3);
    let mut stored = Stored::Unreadable;
    let r = run_once(&mut stored, Some(&remote), true);
    assert_eq!(r.result, Err(RunError::CacheRead));
    assert_eq!(r.fetches, 0);
    assert_eq!(r.writes, 0);
    assert!(r.notified.is_empty());
    assert_eq!(stored, Stored::Unreadable);
}

#[test]
fn unexpected_event_ends_run() {
    let (detector, action) = Detector::start();
    assert!(matches!(action, Action::CheckCache));
    let (detector, action) = detector.advance(Event::Saved);
    assert!(detector.is_done());
    assert!(matches!(action, Action::Finish(Err(RunError::UnexpectedEvent))));
}

#[test]
fn document_is_held_only_while_saving_or_notifying() {
    let (detector, _) = Detector::start();
    assert!(detector.document().is_none());
    let (detector, _) = detector.advance(Event::CachePresence(false));
    assert!(detector.document().is_none());
    let remote = catalog("2024-01-01", 1);
    let (detector, action) = detector.advance(Event::Fetched(remote.clone()));
    assert!(matches!(action, Action::Save));
    assert_eq!(detector.document(), Some(&remote));
    assert!(!detector.is_done());
}
