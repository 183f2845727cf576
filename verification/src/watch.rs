//! The change watcher: once registered on a folder it only observes.
//! A relevant event yields a notification and marks that re-ingestion
//! may be needed; nothing here ever starts a re-ingestion, so no
//! feedback loop can arise.

use vstd::prelude::*;

verus! {

/// The kinds of filesystem event the watcher distinguishes.
#[derive(PartialEq, Eq, Structural, Clone, Copy, Debug)]
pub enum WatchEventKind {
    Created,
    Modified,
    Removed,
    /// Anything else the observer reports; ignored.
    Other,
}

/// One batch of observed filesystem changes; ephemeral, never persisted.
pub struct WatchEvent {
    pub kind: WatchEventKind,
    pub paths: Vec<String>,
}

/// Only creations, modifications and removals are worth noting.
pub open spec fn relevant(k: WatchEventKind) -> bool {
    k != WatchEventKind::Other
}

/// Where a watcher stands: it starts unregistered, and once watching it
/// never goes back.
#[derive(PartialEq, Eq, Structural, Clone, Copy, Debug)]
pub enum WatcherState {
    Unregistered,
    Watching,
}

/// The watcher over one folder. `change_pending` records that a relevant
/// event was seen since registration; acting on it stays a user-initiated
/// ingestion, never an automatic one.
pub struct Watcher {
    pub state: WatcherState,
    pub folder: String,
    pub change_pending: bool,
}

impl Watcher {
    /// A watcher that observes nothing yet.
    pub fn unregistered() -> (w: Watcher)
        ensures
            w.state == WatcherState::Unregistered,
            !w.change_pending,
    {
        Watcher { state: WatcherState::Unregistered, folder: String::new(), change_pending: false }
    }

    /// Register the watcher on a folder: the one transition, from
    /// unregistered to watching.
    pub fn register(self, folder: String) -> (w: Watcher)
        requires
            self.state == WatcherState::Unregistered,
        ensures
            w.state == WatcherState::Watching,
            w.folder@ == folder@,
            w.change_pending == self.change_pending,
    {
        Watcher { state: WatcherState::Watching, folder, change_pending: self.change_pending }
    }

    /// Observe one event batch. A relevant event yields the notification
    /// text and records that re-ingestion may be needed; an irrelevant
    /// one changes nothing. Observation never changes the registration
    /// and never triggers an ingestion.
    pub fn observe(&mut self, event: &WatchEvent) -> (note: Option<String>)
        requires
            old(self).state == WatcherState::Watching,
        ensures
            final(self).state == old(self).state,
            final(self).folder == old(self).folder,
            relevant(event.kind) ==> final(self).change_pending,
            !relevant(event.kind) ==> final(self).change_pending == old(self).change_pending,
            note is Some <==> relevant(event.kind),
            note matches Some(n) ==> n@ == "Change detected; you may want to re-index: "@
                + old(self).folder@,
    {
        match event.kind {
            WatchEventKind::Other => None,
            _ => {
                self.change_pending = true;
                let mut n = String::from_str("Change detected; you may want to re-index: ");
                n.append(self.folder.as_str());
                Some(n)
            },
        }
    }

    /// Whether a relevant change was observed since registration.
    pub fn reingest_may_be_needed(&self) -> (r: bool)
        ensures
            r == self.change_pending,
    {
        self.change_pending
    }
}

} // verus!
