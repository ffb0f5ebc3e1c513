use vstd::prelude::*;

use crate::error::{LocationId, LocationManagerError};
use crate::paths::{path_eq, same_path};

verus! {

/// What the manager reads of a location stored in the library database.
#[derive(Debug, PartialEq, Eq)]
pub struct LocationRecord {
    pub id: LocationId,
    pub local_path: Option<String>,
    pub is_online: bool,
}

impl LocationRecord {
    /// A copy of the record.
    pub fn duplicate(&self) -> (r: LocationRecord)
        ensures
            r == *self,
    {
        let local_path = match &self.local_path {
            Some(p) => Some(p.clone()),
            None => None,
        };
        LocationRecord { id: self.id, local_path, is_online: self.is_online }
    }
}

/// Where a location's file system watcher is kept.
#[derive(Debug, Clone, Copy, PartialEq, Eq, Structural)]
pub enum WatcherSlot {
    /// Just created, not yet filed.
    Created,
    /// Among the watchers that watch their path.
    Watched,
    /// Among the watchers that are idle.
    Unwatched,
}

/// What the owner of the file system watchers has to do, in order.
#[derive(Debug, Clone, PartialEq, Eq)]
pub enum WatcherAction {
    /// Start watching `path` with the watcher of `location_id` in `slot`.
    Watch { slot: WatcherSlot, location_id: LocationId, path: String },
    /// Stop watching `path` with the watcher of `location_id` in `slot`.
    Unwatch { slot: WatcherSlot, location_id: LocationId, path: String },
    /// File the watcher of `location_id` from `from` under `to`, dropping
    /// any watcher filed there before.
    Move { from: WatcherSlot, to: WatcherSlot, location_id: LocationId },
    /// Drop the watcher of `location_id` in `slot`.
    Drop { slot: WatcherSlot, location_id: LocationId },
    /// Check the location again once the check interval has passed.
    ScheduleCheck { location_id: LocationId },
}

/// The manager's record of a location's watcher: the location as last seen
/// and the path the watcher is meant for.
#[derive(Debug, PartialEq, Eq)]
pub struct WatcherRecord {
    pub location: LocationRecord,
    pub path: String,
}

/// The path a new watcher for `location` is meant for: its local path.
pub fn watcher_path(location: &LocationRecord) -> (r: Result<String, LocationManagerError>)
    ensures
        match location.local_path {
            Some(p) => r == Ok::<String, LocationManagerError>(p),
            None => r == Err::<String, LocationManagerError>(
                LocationManagerError::LocationMissingLocalPath(location.id),
            ),
        },
{
    match &location.local_path {
        Some(p) => Ok(p.clone()),
        None => Err(LocationManagerError::LocationMissingLocalPath(location.id)),
    }
}

/// The record after `update_data(location, ..)`: the location is replaced, and
/// the path too where it differs from the location's local path.
pub open spec fn updated_record(w: WatcherRecord, location: LocationRecord) -> WatcherRecord {
    let path = location.local_path->0;
    if path_eq(w.path@, path@) {
        WatcherRecord { location, path: w.path }
    } else {
        WatcherRecord { location, path }
    }
}

/// What `update_data(location, to_watch)` asks of the watcher in `slot`: where
/// the path changes, stop watching the old one, and watch the new one if
/// `to_watch`.
pub open spec fn update_actions(w: WatcherRecord, location: LocationRecord, to_watch: bool, slot: WatcherSlot) -> Seq<WatcherAction> {
    let path = location.local_path->0;
    if path_eq(w.path@, path@) {
        seq![]
    } else if to_watch {
        seq![
            WatcherAction::Unwatch { slot, location_id: location.id, path: w.path },
            WatcherAction::Watch { slot, location_id: location.id, path },
        ]
    } else {
        seq![WatcherAction::Unwatch { slot, location_id: location.id, path: w.path }]
    }
}

impl WatcherRecord {
    /// Whether the watcher is meant for `path`.
    pub fn check_path(&self, path: &str) -> (r: bool)
        ensures
            r == path_eq(self.path@, path@),
            self.path@ == path@ ==> r,
    {
        same_path(self.path.as_str(), path)
    }

    /// Takes in a newer record of the same location; where its local path
    /// differs from the watcher's, the watcher moves to it.
    pub fn update_data(&mut self, location: LocationRecord, to_watch: bool, slot: WatcherSlot) -> (r: Vec<WatcherAction>)
        requires
            old(self).location.id == location.id,
            location.local_path is Some,
        ensures
            *final(self) == updated_record(*old(self), location),
            r@ == update_actions(*old(self), location, to_watch, slot),
            (location.local_path->0)@ == old(self).path@ ==> r@ == Seq::<WatcherAction>::empty()
                && final(self).path == old(self).path,
    {
        let ghost old_self = *self;
        let path = match &location.local_path {
            Some(p) => p.clone(),
            None => String::new(),
        };
        let mut actions: Vec<WatcherAction> = Vec::new();
        if !self.check_path(path.as_str()) {
            actions.push(WatcherAction::Unwatch { slot, location_id: location.id, path: self.path.clone() });
            if to_watch {
                actions.push(WatcherAction::Watch { slot, location_id: location.id, path: path.clone() });
            }
            self.path = path;
        }
        self.location = location;
        proof {
            assert(actions@ =~= update_actions(old_self, location, to_watch, slot));
        }
        actions
    }
}

} // verus!
