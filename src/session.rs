use vstd::prelude::*;

use crate::detector::{next, Action, Detector, Event, Outcome, RunError};
use crate::model::Kev;

verus! {

/// What the snapshot file holds at a given moment.
pub enum Stored {
    Absent,
    /// Present, but unreadable or not a catalog document.
    Unreadable,
    Holds(Kev),
}

/// The outside world during one run: what the remote feed serves (`None`
/// when the fetch fails) and whether writing the snapshot succeeds. A failed
/// write leaves the earlier snapshot in place.
pub struct Surroundings {
    pub remote: Option<Kev>,
    pub write_ok: bool,
}

/// What one run did, as seen from outside.
pub struct RunRecord {
    pub stored: Stored,
    pub fetches: nat,
    pub writes: nat,
    pub notified: Seq<Kev>,
    pub result: Option<Result<Outcome, RunError>>,
}

/// Performs action `a`, asked for in state `s`, against the surroundings, and
/// gives the event that reports back. `Finish` is not performed.
pub open spec fn perform(s: Detector, a: Action, env: Surroundings, rec: RunRecord) -> (
    Event,
    RunRecord,
) {
    match a {
        Action::CheckCache => (Event::CachePresence(!(rec.stored is Absent)), rec),
        Action::LoadCache => match rec.stored {
            Stored::Holds(k) => (Event::CacheLoaded(k), rec),
            _ => (Event::CacheLoadFailed, rec),
        },
        Action::Fetch => {
            let rec2 = RunRecord { fetches: rec.fetches + 1, ..rec };
            match env.remote {
                Some(k) => (Event::Fetched(k), rec2),
                None => (Event::FetchFailed, rec2),
            }
        },
        Action::Save => match s.held() {
            Some(doc) => if env.write_ok {
                (Event::Saved, RunRecord { stored: Stored::Holds(doc), writes: rec.writes + 1, ..rec })
            } else {
                (Event::SaveFailed, rec)
            },
            None => (Event::SaveFailed, rec),
        },
        Action::Notify => match s.held() {
            Some(doc) => (Event::Notified, RunRecord { notified: rec.notified.push(doc), ..rec }),
            None => (Event::Notified, rec),
        },
        Action::Finish(_) => (Event::Notified, rec),
    }
}

/// Runs the detector from state `s` with pending action `a` for at most
/// `fuel` further steps.
pub open spec fn drive(s: Detector, a: Action, env: Surroundings, rec: RunRecord, fuel: nat) -> RunRecord
    decreases fuel,
{
    if let Action::Finish(r) = a {
        RunRecord { result: Some(r), ..rec }
    } else if fuel == 0 {
        rec
    } else {
        let (e, rec2) = perform(s, a, env, rec);
        let (s2, a2) = next(s, e);
        drive(s2, a2, env, rec2, (fuel - 1) as nat)
    }
}

/// One whole run of the detector, started on the snapshot `stored`.
pub open spec fn session(stored: Stored, env: Surroundings) -> RunRecord {
    drive(
        Detector::Probing,
        Action::CheckCache,
        env,
        RunRecord { stored, fetches: 0, writes: 0, notified: Seq::empty(), result: None },
        8,
    )
}

/// With no snapshot present, a run whose fetch succeeds writes the fetched
/// document as the snapshot and does not notify.
pub proof fn first_run_saves_baseline(doc: Kev)
    ensures
        ({
            let r = session(Stored::Absent, Surroundings { remote: Some(doc), write_ok: true });
            &&& r.stored == Stored::Holds(doc)
            &&& r.writes == 1
            &&& r.notified.len() == 0
            &&& r.result == Some(Ok::<Outcome, RunError>(Outcome::Baseline))
        }),
{
    reveal_with_fuel(drive, 8);
}

/// With no snapshot present, a run whose fetch fails writes nothing and
/// reports the fetch failure.
pub proof fn first_run_fetch_failure_writes_nothing(write_ok: bool)
    ensures
        ({
            let r = session(Stored::Absent, Surroundings { remote: None, write_ok });
            &&& r.stored == Stored::Absent
            &&& r.writes == 0
            &&& r.notified.len() == 0
            &&& r.result == Some(Err::<Outcome, RunError>(RunError::Fetch))
        }),
{
    reveal_with_fuel(drive, 8);
}

/// When the fetched catalog has the snapshot's release date, a run writes
/// nothing, leaves the snapshot as it was and does not notify.
pub proof fn unchanged_release_leaves_snapshot(cached: Kev, doc: Kev, write_ok: bool)
    requires
        cached.date_released@ == doc.date_released@,
    ensures
        ({
            let r = session(Stored::Holds(cached), Surroundings { remote: Some(doc), write_ok });
            &&& r.stored == Stored::Holds(cached)
            &&& r.writes == 0
            &&& r.notified.len() == 0
            &&& r.result == Some(Ok::<Outcome, RunError>(Outcome::Unchanged))
        }),
{
    reveal_with_fuel(drive, 8);
}

/// When the fetched catalog's release date differs from the snapshot's, a run
/// overwrites the snapshot with the fetched document and then invokes the
/// notifier exactly once, with that document.
pub proof fn changed_release_overwrites_and_notifies(cached: Kev, doc: Kev)
    requires
        cached.date_released@ != doc.date_released@,
    ensures
        ({
            let r = session(Stored::Holds(cached), Surroundings { remote: Some(doc), write_ok: true });
            &&& r.stored == Stored::Holds(doc)
            &&& r.writes == 1
            &&& r.notified == seq![doc]
            &&& r.result == Some(Ok::<Outcome, RunError>(Outcome::Updated))
        }),
{
    reveal_with_fuel(drive, 8);
    assert(seq![doc] =~= Seq::<Kev>::empty().push(doc));
}

/// When the new snapshot cannot be written, the run fails, the earlier
/// snapshot stays and the notifier is not invoked.
pub proof fn failed_save_suppresses_notification(cached: Kev, doc: Kev)
    requires
        cached.date_released@ != doc.date_released@,
    ensures
        ({
            let r = session(Stored::Holds(cached), Surroundings { remote: Some(doc), write_ok: false });
            &&& r.stored == Stored::Holds(cached)
            &&& r.notified.len() == 0
            &&& r.result == Some(Err::<Outcome, RunError>(RunError::CacheWrite))
        }),
{
    reveal_with_fuel(drive, 8);
}

/// Running twice in succession against the same remote catalog: the second
/// run writes nothing and notifies nobody, so the snapshot after it is the
/// snapshot after the first.
pub proof fn repeated_run_is_stable(stored: Stored, doc: Kev)
    requires
        !(stored is Unreadable),
    ensures
        ({
            let env = Surroundings { remote: Some(doc), write_ok: true };
            let first = session(stored, env);
            let second = session(first.stored, env);
            &&& second.stored == first.stored
            &&& second.writes == 0
            &&& second.notified.len() == 0
            &&& second.result == Some(Ok::<Outcome, RunError>(Outcome::Unchanged))
        }),
{
    reveal_with_fuel(drive, 8);
    let env = Surroundings { remote: Some(doc), write_ok: true };
    let first = session(stored, env);
    assert(first.stored == Stored::Holds(doc) || first.stored == stored);
}

/// A snapshot that cannot be read ends the run with a cache read error,
/// before any fetch, write or notification.
pub proof fn unreadable_snapshot_stops_run(env: Surroundings)
    ensures
        ({
            let r = session(Stored::Unreadable, env);
            &&& r.stored == Stored::Unreadable
            &&& r.fetches == 0
            &&& r.writes == 0
            &&& r.notified.len() == 0
            &&& r.result == Some(Err::<Outcome, RunError>(RunError::CacheRead))
        }),
{
    reveal_with_fuel(drive, 8);
}

/// Every run ends. A run that succeeds leaves a snapshot with the release
/// date of the document it fetched; a run that fails leaves the snapshot as it
/// found it. The notifier is invoked at most once, and only with the document
/// that the run has just written as the snapshot.
pub proof fn every_run_reconciles_snapshot(stored: Stored, env: Surroundings)
    ensures
        ({
            let r = session(stored, env);
            &&& r.result is Some
            &&& r.result->0 is Ok ==> (env.remote matches Some(doc) && r.stored matches Stored::Holds(k)
                && k.date_released@ == doc.date_released@)
            &&& r.result->0 is Err ==> r.stored == stored
            &&& r.notified.len() <= 1
            &&& r.notified.len() == 1 ==> (r.writes == 1 && r.stored == Stored::Holds(r.notified[0]))
            &&& r.fetches <= 1
            &&& r.writes <= 1
        }),
{
    reveal_with_fuel(drive, 8);
}

} // verus!
