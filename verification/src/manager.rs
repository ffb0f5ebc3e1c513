use std::collections::HashMap;
use std::collections::HashSet;

use vstd::prelude::*;

use crate::error::{LocationId, LocationManagerError};
use crate::location::{
    update_actions, updated_record, watcher_path, LocationRecord, WatcherAction, WatcherRecord, WatcherSlot,
};
use crate::paths::path_eq;

verus! {

/// The manager's bookkeeping as mathematical values: the watchers that
/// watch their path, the idle ones, and the locations marked for removal.
#[verifier::ext_equal]
pub struct ManagerModel {
    pub watched: Map<LocationId, WatcherRecord>,
    pub unwatched: Map<LocationId, WatcherRecord>,
    pub to_remove: Set<LocationId>,
}

impl ManagerModel {
    /// Every watcher is filed under the id of its own location.
    pub open spec fn wf(self) -> bool {
        &&& forall|k: LocationId| #[trigger]
            self.watched.contains_key(k) ==> self.watched[k].location.id == k
        &&& forall|k: LocationId| #[trigger]
            self.unwatched.contains_key(k) ==> self.unwatched[k].location.id == k
    }
}

/// `watch_location`: the idle watcher of the location, if there is one,
/// starts watching (moving to the location's path where it changed) and is
/// filed among the watched ones.
pub open spec fn watch_location_spec(s: ManagerModel, location: LocationRecord) -> (ManagerModel, Seq<WatcherAction>) {
    let id = location.id;
    let path = location.local_path->0;
    if s.unwatched.contains_key(id) {
        let w = s.unwatched[id];
        let w2 = if path_eq(w.path@, path@) { w } else { updated_record(w, location) };
        let acts = if path_eq(w.path@, path@) {
            seq![WatcherAction::Watch { slot: WatcherSlot::Unwatched, location_id: id, path: w.path }]
        } else {
            update_actions(w, location, true, WatcherSlot::Unwatched)
        };
        (
            ManagerModel {
                watched: s.watched.insert(id, w2),
                unwatched: s.unwatched.remove(id),
                to_remove: s.to_remove,
            },
            acts.push(WatcherAction::Move { from: WatcherSlot::Unwatched, to: WatcherSlot::Watched, location_id: id }),
        )
    } else {
        (s, seq![])
    }
}

/// `unwatch_location`: the watching watcher of the location, if there is
/// one, stops watching (moving to the location's path where it changed) and
/// is filed among the idle ones.
pub open spec fn unwatch_location_spec(s: ManagerModel, location: LocationRecord) -> (ManagerModel, Seq<WatcherAction>) {
    let id = location.id;
    let path = location.local_path->0;
    if s.watched.contains_key(id) {
        let w = s.watched[id];
        let w2 = if path_eq(w.path@, path@) { w } else { updated_record(w, location) };
        let acts = if path_eq(w.path@, path@) {
            seq![WatcherAction::Unwatch { slot: WatcherSlot::Watched, location_id: id, path: w.path }]
        } else {
            update_actions(w, location, false, WatcherSlot::Watched)
        };
        (
            ManagerModel {
                watched: s.watched.remove(id),
                unwatched: s.unwatched.insert(id, w2),
                to_remove: s.to_remove,
            },
            acts.push(WatcherAction::Move { from: WatcherSlot::Watched, to: WatcherSlot::Unwatched, location_id: id }),
        )
    } else {
        (s, seq![])
    }
}

/// Dropping a location's watcher: the watching one, which stops watching
/// first, or else the idle one.
pub open spec fn forget_spec(s: ManagerModel, id: LocationId) -> (ManagerModel, Seq<WatcherAction>) {
    if s.watched.contains_key(id) {
        (
            ManagerModel { watched: s.watched.remove(id), ..s },
            seq![
                WatcherAction::Unwatch { slot: WatcherSlot::Watched, location_id: id, path: s.watched[id].path },
                WatcherAction::Drop { slot: WatcherSlot::Watched, location_id: id },
            ],
        )
    } else if s.unwatched.contains_key(id) {
        (
            ManagerModel { unwatched: s.unwatched.remove(id), ..s },
            seq![WatcherAction::Drop { slot: WatcherSlot::Unwatched, location_id: id }],
        )
    } else {
        (s, seq![])
    }
}

/// A periodic check of `id`, given the location as fetched from the
/// database. `None` as actions: the check goes on with whether the location
/// is online.
pub open spec fn check_spec(s: ManagerModel, id: LocationId, fetched: Option<LocationRecord>) -> (ManagerModel, Option<Seq<WatcherAction>>) {
    match fetched {
        None => {
            let (s1, acts) = forget_spec(s, id);
            (ManagerModel { to_remove: s1.to_remove.remove(id), ..s1 }, Some(acts))
        },
        Some(location) => match location.local_path {
            None => {
                let (s1, acts) = forget_spec(s, id);
                (s1, Some(acts))
            },
            Some(_) => if s.to_remove.contains(id) {
                let (s1, acts) = unwatch_location_spec(s, location);
                let drop = if s1.unwatched.contains_key(id) {
                    seq![WatcherAction::Drop { slot: WatcherSlot::Unwatched, location_id: id }]
                } else {
                    seq![]
                };
                (
                    ManagerModel {
                        watched: s1.watched,
                        unwatched: s1.unwatched.remove(id),
                        to_remove: s1.to_remove.remove(id),
                    },
                    Some(acts + drop),
                )
            } else {
                (s, None)
            },
        },
    }
}

/// A periodic check of `id` that found the location `online` or not: its
/// watcher is started or stopped, and the next check is scheduled.
pub open spec fn online_checked_spec(s: ManagerModel, id: LocationId, location: LocationRecord, online: bool) -> (ManagerModel, Seq<WatcherAction>) {
    let (s1, acts) = if online {
        watch_location_spec(s, location)
    } else {
        unwatch_location_spec(s, location)
    };
    (s1, acts.push(WatcherAction::ScheduleCheck { location_id: id }))
}

/// A location handed to the manager, with whether it is online and whether
/// creating its file system watcher failed (and why).
pub open spec fn add_spec(
    s: ManagerModel,
    id: LocationId,
    location: LocationRecord,
    online: bool,
    created: Result<(), String>,
) -> Result<(ManagerModel, Seq<WatcherAction>), LocationManagerError> {
    match created {
        Err(msg) => Err(LocationManagerError::WatcherError(msg)),
        Ok(_) => match location.local_path {
            None => Err(LocationManagerError::LocationMissingLocalPath(location.id)),
            Some(path) => {
                let w = WatcherRecord { location, path };
                if online {
                    Ok(
                        (
                            ManagerModel { watched: s.watched.insert(id, w), ..s },
                            seq![
                                WatcherAction::Watch { slot: WatcherSlot::Created, location_id: id, path },
                                WatcherAction::Move { from: WatcherSlot::Created, to: WatcherSlot::Watched, location_id: id },
                                WatcherAction::ScheduleCheck { location_id: id },
                            ],
                        ),
                    )
                } else {
                    Ok(
                        (
                            ManagerModel { unwatched: s.unwatched.insert(id, w), ..s },
                            seq![
                                WatcherAction::Move { from: WatcherSlot::Created, to: WatcherSlot::Unwatched, location_id: id },
                                WatcherAction::ScheduleCheck { location_id: id },
                            ],
                        ),
                    )
                }
            },
        },
    }
}

/// A request to remove `id`: it is marked, and goes at its next check.
pub open spec fn remove_request_spec(s: ManagerModel, id: LocationId) -> ManagerModel {
    ManagerModel { to_remove: s.to_remove.insert(id), ..s }
}

/// How a periodic check goes on.
#[derive(Debug, PartialEq, Eq)]
pub enum CheckStep {
    /// The check is over; the actions are to be carried out in order.
    Finished(Vec<WatcherAction>),
    /// Whether the location is online is to be found out, and handed to
    /// `on_online_checked`.
    OnlineCheckNeeded,
}

/// The actions of a check step, `None` where the online check is needed.
pub open spec fn step_actions(step: CheckStep) -> Option<Seq<WatcherAction>> {
    match step {
        CheckStep::Finished(acts) => Some(acts@),
        CheckStep::OnlineCheckNeeded => None,
    }
}

/// The bookkeeping of the location manager's task.
pub struct ManagerState {
    watched: HashMap<LocationId, WatcherRecord>,
    unwatched: HashMap<LocationId, WatcherRecord>,
    to_remove: HashSet<LocationId>,
}

impl View for ManagerState {
    type V = ManagerModel;

    closed spec fn view(&self) -> ManagerModel {
        ManagerModel {
            watched: self.watched@,
            unwatched: self.unwatched@,
            to_remove: self.to_remove@,
        }
    }
}

impl ManagerState {
    /// A manager with no locations.
    pub fn new() -> (r: ManagerState)
        ensures
            r@.watched == Map::<LocationId, WatcherRecord>::empty(),
            r@.unwatched == Map::<LocationId, WatcherRecord>::empty(),
            r@.to_remove == Set::<LocationId>::empty(),
            r@.wf(),
    {
        ManagerState { watched: HashMap::new(), unwatched: HashMap::new(), to_remove: HashSet::new() }
    }

    fn watch_location(&mut self, location: LocationRecord) -> (r: Vec<WatcherAction>)
        requires
            old(self)@.wf(),
            location.local_path is Some,
        ensures
            final(self)@ == watch_location_spec(old(self)@, location).0,
            r@ == watch_location_spec(old(self)@, location).1,
            final(self)@.wf(),
            old(self)@.unwatched.contains_key(location.id)
                && old(self)@.unwatched[location.id].path@ == (location.local_path->0)@
                ==> path_eq(old(self)@.unwatched[location.id].path@, (location.local_path->0)@),
    {
        let ghost s = self@;
        let id = location.id;
        match self.unwatched.remove(&id) {
            Some(mut w) => {
                let mut actions: Vec<WatcherAction>;
                if w.check_path(location.local_path.as_ref().unwrap().as_str()) {
                    actions = Vec::new();
                    actions.push(WatcherAction::Watch { slot: WatcherSlot::Unwatched, location_id: id, path: w.path.clone() });
                } else {
                    actions = w.update_data(location, true, WatcherSlot::Unwatched);
                }
                actions.push(WatcherAction::Move { from: WatcherSlot::Unwatched, to: WatcherSlot::Watched, location_id: id });
                self.watched.insert(id, w);
                proof {
                    let (m, a) = watch_location_spec(s, location);
                    assert(self@ =~= m);
                    assert(actions@ =~= a);
                }
                actions
            },
            None => {
                proof {
                    assert(self@ =~= s);
                }
                Vec::new()
            },
        }
    }

    fn unwatch_location(&mut self, location: LocationRecord) -> (r: Vec<WatcherAction>)
        requires
            old(self)@.wf(),
            location.local_path is Some,
        ensures
            final(self)@ == unwatch_location_spec(old(self)@, location).0,
            r@ == unwatch_location_spec(old(self)@, location).1,
            final(self)@.wf(),
            old(self)@.watched.contains_key(location.id)
                && old(self)@.watched[location.id].path@ == (location.local_path->0)@
                ==> path_eq(old(self)@.watched[location.id].path@, (location.local_path->0)@),
    {
        let ghost s = self@;
        let id = location.id;
        match self.watched.remove(&id) {
            Some(mut w) => {
                let mut actions: Vec<WatcherAction>;
                if w.check_path(location.local_path.as_ref().unwrap().as_str()) {
                    actions = Vec::new();
                    actions.push(WatcherAction::Unwatch { slot: WatcherSlot::Watched, location_id: id, path: w.path.clone() });
                } else {
                    actions = w.update_data(location, false, WatcherSlot::Watched);
                }
                actions.push(WatcherAction::Move { from: WatcherSlot::Watched, to: WatcherSlot::Unwatched, location_id: id });
                self.unwatched.insert(id, w);
                proof {
                    let (m, a) = unwatch_location_spec(s, location);
                    assert(self@ =~= m);
                    assert(actions@ =~= a);
                }
                actions
            },
            None => {
                proof {
                    assert(self@ =~= s);
                }
                Vec::new()
            },
        }
    }

    fn forget(&mut self, id: LocationId) -> (r: Vec<WatcherAction>)
        requires
            old(self)@.wf(),
        ensures
            final(self)@ == forget_spec(old(self)@, id).0,
            r@ == forget_spec(old(self)@, id).1,
            final(self)@.wf(),
    {
        let ghost s = self@;
        let mut actions: Vec<WatcherAction> = Vec::new();
        match self.watched.remove(&id) {
            Some(w) => {
                actions.push(WatcherAction::Unwatch { slot: WatcherSlot::Watched, location_id: id, path: w.path });
                actions.push(WatcherAction::Drop { slot: WatcherSlot::Watched, location_id: id });
            },
            None => {
                match self.unwatched.remove(&id) {
                    Some(_) => {
                        actions.push(WatcherAction::Drop { slot: WatcherSlot::Unwatched, location_id: id });
                    },
                    None => {},
                }
            },
        }
        proof {
            let (m, a) = forget_spec(s, id);
            assert(self@ =~= m);
            assert(actions@ =~= a);
        }
        actions
    }

    /// A request to remove location `id`: it is marked for removal, which
    /// happens at its next periodic check.
    pub fn on_remove_requested(&mut self, id: LocationId)
        requires
            old(self)@.wf(),
        ensures
            final(self)@ == remove_request_spec(old(self)@, id),
            final(self)@.wf(),
    {
        self.to_remove.insert(id);
        proof {
            assert(self@ =~= remove_request_spec(old(self)@, id));
        }
    }

    /// A location handed to the manager (`location`, fetched by `location_id`),
    /// with whether it is `online` and how creating its file system watcher
    /// went (`created`, the failure's message on error). On success the new
    /// watcher is filed, watching if the location is online, and a check is
    /// scheduled.
    pub fn on_location_added(
        &mut self,
        location_id: LocationId,
        location: LocationRecord,
        online: bool,
        created: Result<(), String>,
    ) -> (r: Result<Vec<WatcherAction>, LocationManagerError>)
        requires
            old(self)@.wf(),
            location.id == location_id,
        ensures
            final(self)@.wf(),
            match add_spec(old(self)@, location_id, location, online, created) {
                Ok((m, a)) => final(self)@ == m && (r matches Ok(acts) && acts@ == a),
                Err(e) => final(self)@ == old(self)@ && r == Err::<Vec<WatcherAction>, LocationManagerError>(e),
            },
            created matches Err(msg) ==> final(self)@ == old(self)@
                && r == Err::<Vec<WatcherAction>, LocationManagerError>(LocationManagerError::WatcherError(msg)),
    {
        let ghost s = self@;
        let ghost loc = location;
        match created {
            Err(msg) => {
                return Err(LocationManagerError::WatcherError(msg));
            },
            Ok(_) => {},
        }
        let path = match watcher_path(&location) {
            Ok(p) => p,
            Err(e) => {
                return Err(e);
            },
        };
        let mut actions: Vec<WatcherAction> = Vec::new();
        if online {
            actions.push(WatcherAction::Watch { slot: WatcherSlot::Created, location_id, path: path.clone() });
            actions.push(WatcherAction::Move { from: WatcherSlot::Created, to: WatcherSlot::Watched, location_id });
            self.watched.insert(location_id, WatcherRecord { location, path });
        } else {
            actions.push(WatcherAction::Move { from: WatcherSlot::Created, to: WatcherSlot::Unwatched, location_id });
            self.unwatched.insert(location_id, WatcherRecord { location, path });
        }
        actions.push(WatcherAction::ScheduleCheck { location_id });
        proof {
            let (m, a) = add_spec(s, location_id, loc, online, created)->Ok_0;
            assert(self@ =~= m);
            assert(actions@ =~= a);
        }
        Ok(actions)
    }

    /// A periodic check of `location_id`, with the location as fetched from
    /// the database (`None`: it is gone). A location that is gone, or has no
    /// local path, loses its watcher; one marked for removal is stopped and
    /// dropped; otherwise the check goes on with `on_online_checked`.
    pub fn on_location_checked(&mut self, location_id: LocationId, fetched: Option<LocationRecord>) -> (r: CheckStep)
        requires
            old(self)@.wf(),
        ensures
            final(self)@ == check_spec(old(self)@, location_id, fetched).0,
            step_actions(r) == check_spec(old(self)@, location_id, fetched).1,
            final(self)@.wf(),
            fetched is None ==> !final(self)@.watched.contains_key(location_id),
            fetched matches Some(l) && l.local_path is None ==> !final(self)@.watched.contains_key(location_id),
    {
        let ghost s = self@;
        match fetched {
            None => {
                let actions = self.forget(location_id);
                self.to_remove.remove(&location_id);
                proof {
                    assert(self@ =~= check_spec(s, location_id, fetched).0);
                }
                CheckStep::Finished(actions)
            },
            Some(location) => {
                if location.local_path.is_none() {
                    let actions = self.forget(location_id);
                    CheckStep::Finished(actions)
                } else if self.to_remove.contains(&location_id) {
                    let ghost loc = location;
                    let mut actions = self.unwatch_location(location);
                    let ghost s1 = self@;
                    let ghost a1 = actions@;
                    match self.unwatched.remove(&location_id) {
                        Some(_) => {
                            actions.push(WatcherAction::Drop { slot: WatcherSlot::Unwatched, location_id });
                        },
                        None => {},
                    }
                    self.to_remove.remove(&location_id);
                    proof {
                        assert(self@ =~= check_spec(s, location_id, fetched).0);
                        assert(actions@ =~= check_spec(s, location_id, fetched).1->Some_0);
                    }
                    CheckStep::Finished(actions)
                } else {
                    CheckStep::OnlineCheckNeeded
                }
            },
        }
    }

    /// The rest of a periodic check of `location_id`: the location (with a
    /// local path) was found `online` or not. Its watcher is started or
    /// stopped accordingly, and the next check is scheduled.
    pub fn on_online_checked(&mut self, location_id: LocationId, location: LocationRecord, online: bool) -> (r: Vec<WatcherAction>)
        requires
            old(self)@.wf(),
            location.local_path is Some,
        ensures
            final(self)@ == online_checked_spec(old(self)@, location_id, location, online).0,
            r@ == online_checked_spec(old(self)@, location_id, location, online).1,
            final(self)@.wf(),
            !online ==> forall|i: int| 0 <= i < r@.len() ==> !(#[trigger] r@[i] is Watch),
            // A watcher whose path text is the location's own is only started
            // or stopped, and keeps its record.
            online && old(self)@.unwatched.contains_key(location.id)
                && old(self)@.unwatched[location.id].path@ == (location.local_path->0)@ ==> {
                &&& r@ == seq![
                    WatcherAction::Watch {
                        slot: WatcherSlot::Unwatched,
                        location_id: location.id,
                        path: old(self)@.unwatched[location.id].path,
                    },
                    WatcherAction::Move { from: WatcherSlot::Unwatched, to: WatcherSlot::Watched, location_id: location.id },
                    WatcherAction::ScheduleCheck { location_id },
                ]
                &&& final(self)@.watched[location.id] == old(self)@.unwatched[location.id]
            },
            !online && old(self)@.watched.contains_key(location.id)
                && old(self)@.watched[location.id].path@ == (location.local_path->0)@ ==> {
                &&& r@ == seq![
                    WatcherAction::Unwatch {
                        slot: WatcherSlot::Watched,
                        location_id: location.id,
                        path: old(self)@.watched[location.id].path,
                    },
                    WatcherAction::Move { from: WatcherSlot::Watched, to: WatcherSlot::Unwatched, location_id: location.id },
                    WatcherAction::ScheduleCheck { location_id },
                ]
                &&& final(self)@.unwatched[location.id] == old(self)@.watched[location.id]
            },
    {
        let mut actions = if online {
            self.watch_location(location)
        } else {
            self.unwatch_location(location)
        };
        actions.push(WatcherAction::ScheduleCheck { location_id });
        actions
    }

    /// Whether location `id` has a watcher among the watching ones.
    pub fn is_watched(&self, id: LocationId) -> (r: bool)
        ensures
            r == self@.watched.contains_key(id),
    {
        self.watched.contains_key(&id)
    }

    /// Whether location `id` has a watcher among the idle ones.
    pub fn is_unwatched(&self, id: LocationId) -> (r: bool)
        ensures
            r == self@.unwatched.contains_key(id),
    {
        self.unwatched.contains_key(&id)
    }

    /// Whether location `id` is marked for removal.
    pub fn is_marked_for_removal(&self, id: LocationId) -> (r: bool)
        ensures
            r == self@.to_remove.contains(id),
    {
        self.to_remove.contains(&id)
    }

    /// The record of the watching watcher of location `id`, if it has one.
    pub fn watched_record(&self, id: LocationId) -> (r: Option<&WatcherRecord>)
        ensures
            match r {
                Some(w) => self@.watched.contains_key(id) && *w == self@.watched[id],
                None => !self@.watched.contains_key(id),
            },
    {
        self.watched.get(&id)
    }

    /// The record of the idle watcher of location `id`, if it has one.
    pub fn unwatched_record(&self, id: LocationId) -> (r: Option<&WatcherRecord>)
        ensures
            match r {
                Some(w) => self@.unwatched.contains_key(id) && *w == self@.unwatched[id],
                None => !self@.unwatched.contains_key(id),
            },
    {
        self.unwatched.get(&id)
    }
}

} // verus!
