use vstd::prelude::*;

use crate::model::Kev;

verus! {

/// Why a run stopped short.
#[derive(Debug, Clone, Copy, PartialEq, Eq, Structural)]
pub enum RunError {
    /// The snapshot exists but could not be read or parsed.
    CacheRead,
    /// The snapshot could not be written.
    CacheWrite,
    /// The remote catalog could not be fetched or parsed.
    Fetch,
    /// An event arrived that the current state does not wait for.
    UnexpectedEvent,
}

/// How a run that completed its work ended.
#[derive(Debug, Clone, Copy, PartialEq, Eq, Structural)]
pub enum Outcome {
    /// There was no snapshot; the fetched catalog became the first one.
    Baseline,
    /// The fetched catalog has the snapshot's release date; nothing was done.
    Unchanged,
    /// A new release was saved as the snapshot and the notifier was invoked.
    Updated,
}

/// What the surroundings report back after performing an action.
#[derive(Debug)]
pub enum Event {
    /// Whether a snapshot file is present.
    CachePresence(bool),
    /// The snapshot was read and parsed.
    CacheLoaded(Kev),
    /// The snapshot could not be read or parsed.
    CacheLoadFailed,
    /// The remote catalog was fetched and parsed.
    Fetched(Kev),
    /// The remote catalog could not be fetched or parsed.
    FetchFailed,
    /// The held document was written as the snapshot.
    Saved,
    /// Writing the snapshot failed.
    SaveFailed,
    /// The notifier has been invoked with the held document.
    Notified,
}

/// What the surroundings are asked to do next.
#[derive(Debug)]
pub enum Action {
    /// Report whether a snapshot is present.
    CheckCache,
    /// Read and parse the snapshot.
    LoadCache,
    /// Fetch and parse the remote catalog.
    Fetch,
    /// Write the held document as the snapshot, replacing any earlier one.
    Save,
    /// Invoke the notifier with the held document.
    Notify,
    /// The run is over.
    Finish(Result<Outcome, RunError>),
}

/// The update detector: one run, from probing the snapshot to its end.
#[derive(Debug)]
pub enum Detector {
    Probing,
    Loading,
    FetchingBaseline,
    FetchingUpdate { cached_release: String },
    SavingBaseline { doc: Kev },
    SavingUpdate { doc: Kev },
    Notifying { doc: Kev },
    Done,
}

/// The transition table of the detector: the next state and the action that
/// the surroundings are to perform.
pub open spec fn next(s: Detector, e: Event) -> (Detector, Action) {
    match (s, e) {
        (Detector::Probing, Event::CachePresence(present)) => if present {
            (Detector::Loading, Action::LoadCache)
        } else {
            (Detector::FetchingBaseline, Action::Fetch)
        },
        (Detector::Loading, Event::CacheLoaded(k)) => (
            Detector::FetchingUpdate { cached_release: k.date_released },
            Action::Fetch,
        ),
        (Detector::Loading, Event::CacheLoadFailed) => (
            Detector::Done,
            Action::Finish(Err(RunError::CacheRead)),
        ),
        (Detector::FetchingBaseline, Event::Fetched(k)) => (
            Detector::SavingBaseline { doc: k },
            Action::Save,
        ),
        (Detector::FetchingUpdate { cached_release }, Event::Fetched(k)) => if cached_release@
            == k.date_released@ {
            (Detector::Done, Action::Finish(Ok(Outcome::Unchanged)))
        } else {
            (Detector::SavingUpdate { doc: k }, Action::Save)
        },
        (Detector::FetchingBaseline, Event::FetchFailed) => (
            Detector::Done,
            Action::Finish(Err(RunError::Fetch)),
        ),
        (Detector::FetchingUpdate { .. }, Event::FetchFailed) => (
            Detector::Done,
            Action::Finish(Err(RunError::Fetch)),
        ),
        (Detector::SavingBaseline { .. }, Event::Saved) => (
            Detector::Done,
            Action::Finish(Ok(Outcome::Baseline)),
        ),
        (Detector::SavingUpdate { doc }, Event::Saved) => (
            Detector::Notifying { doc },
            Action::Notify,
        ),
        (Detector::SavingBaseline { .. }, Event::SaveFailed) => (
            Detector::Done,
            Action::Finish(Err(RunError::CacheWrite)),
        ),
        (Detector::SavingUpdate { .. }, Event::SaveFailed) => (
            Detector::Done,
            Action::Finish(Err(RunError::CacheWrite)),
        ),
        (Detector::Notifying { .. }, Event::Notified) => (
            Detector::Done,
            Action::Finish(Ok(Outcome::Updated)),
        ),
        _ => (Detector::Done, Action::Finish(Err(RunError::UnexpectedEvent))),
    }
}

impl Detector {
    /// The document that a `Save` or `Notify` action refers to.
    pub open spec fn held(self) -> Option<Kev> {
        match self {
            Detector::SavingBaseline { doc } => Some(doc),
            Detector::SavingUpdate { doc } => Some(doc),
            Detector::Notifying { doc } => Some(doc),
            _ => None,
        }
    }

    /// Begins a run: the first thing to learn is whether a snapshot exists.
    pub fn start() -> (r: (Detector, Action))
        ensures
            r.0 is Probing,
            r.1 is CheckCache,
    {
        (Detector::Probing, Action::CheckCache)
    }

    /// Takes in what the surroundings report and says what to do next.
    pub fn advance(self, event: Event) -> (r: (Detector, Action))
        ensures
            r == next(self, event),
    {
        match (self, event) {
            (Detector::Probing, Event::CachePresence(present)) => if present {
                (Detector::Loading, Action::LoadCache)
            } else {
                (Detector::FetchingBaseline, Action::Fetch)
            },
            (Detector::Loading, Event::CacheLoaded(k)) => (
                Detector::FetchingUpdate { cached_release: k.date_released },
                Action::Fetch,
            ),
            (Detector::Loading, Event::CacheLoadFailed) => (
                Detector::Done,
                Action::Finish(Err(RunError::CacheRead)),
            ),
            (Detector::FetchingBaseline, Event::Fetched(k)) => (
                Detector::SavingBaseline { doc: k },
                Action::Save,
            ),
            (Detector::FetchingUpdate { cached_release }, Event::Fetched(k)) => {
                if cached_release == k.date_released {
                    (Detector::Done, Action::Finish(Ok(Outcome::Unchanged)))
                } else {
                    (Detector::SavingUpdate { doc: k }, Action::Save)
                }
            },
            (Detector::FetchingBaseline, Event::FetchFailed) => (
                Detector::Done,
                Action::Finish(Err(RunError::Fetch)),
            ),
            (Detector::FetchingUpdate { .. }, Event::FetchFailed) => (
                Detector::Done,
                Action::Finish(Err(RunError::Fetch)),
            ),
            (Detector::SavingBaseline { .. }, Event::Saved) => (
                Detector::Done,
                Action::Finish(Ok(Outcome::Baseline)),
            ),
            (Detector::SavingUpdate { doc }, Event::Saved) => (
                Detector::Notifying { doc },
                Action::Notify,
            ),
            (Detector::SavingBaseline { .. }, Event::SaveFailed) => (
                Detector::Done,
                Action::Finish(Err(RunError::CacheWrite)),
            ),
            (Detector::SavingUpdate { .. }, Event::SaveFailed) => (
                Detector::Done,
                Action::Finish(Err(RunError::CacheWrite)),
            ),
            (Detector::Notifying { .. }, Event::Notified) => (
                Detector::Done,
                Action::Finish(Ok(Outcome::Updated)),
            ),
            _ => (Detector::Done, Action::Finish(Err(RunError::UnexpectedEvent))),
        }
    }

    /// The document that a pending `Save` or `Notify` action refers to.
    pub fn document(&self) -> (r: Option<&Kev>)
        ensures
            match r {
                Some(d) => self.held() == Some(*d),
                None => self.held() is None,
            },
    {
        match self {
            Detector::SavingBaseline { doc } => Some(doc),
            Detector::SavingUpdate { doc } => Some(doc),
            Detector::Notifying { doc } => Some(doc),
            _ => None,
        }
    }

    /// Whether the run is over.
    pub fn is_done(&self) -> (r: bool)
        ensures
            r == (*self is Done),
    {
        matches!(self, Detector::Done)
    }
}

} // verus!
