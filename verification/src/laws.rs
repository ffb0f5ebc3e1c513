use vstd::prelude::*;

use crate::error::{LocationId, LocationManagerError};
use crate::events::{
    contains_text, create_plan_outcome, event_is_relevant, event_route, modify_outcome,
    modify_unhandled, CreateKind, CreatePlan, EventKind, EventRoute, ModifyKind, RenameMode,
    RenamePaths,
};
use crate::location::{
    update_actions, updated_record, LocationRecord, WatcherAction, WatcherRecord, WatcherSlot,
};
use crate::online::{online_flag_update, PathProbe};
use crate::manager::{
    add_spec, check_spec, online_checked_spec, remove_request_spec, unwatch_location_spec,
    watch_location_spec, ManagerModel,
};
use crate::paths::path_eq;

verus! {

/// Whether the actions schedule a check of some location.
pub open spec fn schedules_a_check(acts: Seq<WatcherAction>) -> bool {
    exists|i: int| 0 <= i < acts.len() && #[trigger] acts[i] is ScheduleCheck
}

/// Asking twice to remove a location is the same as asking once.
pub proof fn remove_request_idempotent(s: ManagerModel, id: LocationId)
    ensures
        remove_request_spec(remove_request_spec(s, id), id) == remove_request_spec(s, id),
{
    assert(remove_request_spec(remove_request_spec(s, id), id) =~= remove_request_spec(s, id));
}

/// A location found online and then offline again (with no other event in
/// between) leaves the bookkeeping as it was, except that where the path of
/// its idle watcher differed from the location's local path, the watcher has
/// taken in the newer location record and its path.
pub proof fn online_then_offline_restores(s: ManagerModel, location: LocationRecord)
    requires
        s.wf(),
        location.local_path is Some,
        s.unwatched.contains_key(location.id),
        !s.watched.contains_key(location.id),
    ensures
        ({
            let w = s.unwatched[location.id];
            let back = unwatch_location_spec(watch_location_spec(s, location).0, location).0;
            back == ManagerModel {
                unwatched: s.unwatched.insert(
                    location.id,
                    if path_eq(w.path@, (location.local_path->0)@) { w } else { updated_record(w, location) },
                ),
                ..s
            }
        }),
{
    let id = location.id;
    let w = s.unwatched[id];
    let p = location.local_path->0;
    let mid = watch_location_spec(s, location).0;
    let back = unwatch_location_spec(mid, location).0;
    let expected = ManagerModel {
        unwatched: s.unwatched.insert(id, if path_eq(w.path@, p@) { w } else { updated_record(w, location) }),
        ..s
    };
    assert(back.watched =~= expected.watched);
    assert(back.unwatched =~= expected.unwatched);
}

/// A location marked for removal loses its watcher at its next check (when it
/// is still in the database with a local path): it is filed nowhere, no
/// longer marked, and no further check is scheduled for it; the other
/// locations are left as they were.
pub proof fn marked_location_goes_at_next_check(s: ManagerModel, location: LocationRecord)
    requires
        s.wf(),
        s.to_remove.contains(location.id),
        location.local_path is Some,
    ensures
        ({
            let id = location.id;
            let (m, acts) = check_spec(s, id, Some(location));
            &&& !m.watched.contains_key(id)
            &&& !m.unwatched.contains_key(id)
            &&& !m.to_remove.contains(id)
            &&& acts is Some
            &&& !schedules_a_check(acts->Some_0)
            &&& m.watched == s.watched.remove(id)
            &&& m.unwatched == s.unwatched.remove(id)
            &&& m.to_remove == s.to_remove.remove(id)
        }),
{
    let id = location.id;
    let (m, acts) = check_spec(s, id, Some(location));
    assert(m.watched =~= s.watched.remove(id));
    assert(m.unwatched =~= s.unwatched.remove(id));
    let a = acts->Some_0;
    assert forall|i: int| 0 <= i < a.len() implies !(#[trigger] a[i] is ScheduleCheck) by {
    }
}

/// A location that is no longer in the database loses its watching watcher
/// (or else its idle one) and its removal mark, and is not checked again.
pub proof fn vanished_location_is_forgotten(s: ManagerModel, id: LocationId)
    requires
        s.wf(),
    ensures
        ({
            let (m, acts) = check_spec(s, id, None);
            &&& !m.watched.contains_key(id)
            &&& !m.to_remove.contains(id)
            &&& !s.watched.contains_key(id) ==> !m.unwatched.contains_key(id)
            &&& acts is Some
            &&& !schedules_a_check(acts->Some_0)
        }),
{
    let (m, acts) = check_spec(s, id, None);
    let a = acts->Some_0;
    assert forall|i: int| 0 <= i < a.len() implies !(#[trigger] a[i] is ScheduleCheck) by {
    }
}

/// After an online check, the location's watcher (if it has one) is filed
/// among the watching ones exactly when the location was found online, and
/// the last thing asked is the location's next check.
pub proof fn online_check_files_watcher_by_status(s: ManagerModel, location: LocationRecord, online: bool)
    requires
        s.wf(),
        location.local_path is Some,
    ensures
        ({
            let id = location.id;
            let (m, acts) = online_checked_spec(s, id, location, online);
            &&& online && (s.watched.contains_key(id) || s.unwatched.contains_key(id)) ==> m.watched.contains_key(id)
            &&& online && s.unwatched.contains_key(id) ==> !m.unwatched.contains_key(id)
            &&& !online && (s.watched.contains_key(id) || s.unwatched.contains_key(id)) ==> m.unwatched.contains_key(id)
            &&& !online && s.watched.contains_key(id) ==> !m.watched.contains_key(id)
            &&& acts.len() > 0
            &&& acts.last() == WatcherAction::ScheduleCheck { location_id: id }
        }),
{
}

/// A location handed to the manager successfully is filed with a watcher
/// for its local path, among the watching ones exactly when it is online,
/// and its first check is scheduled.
pub proof fn added_location_is_filed(
    s: ManagerModel,
    location: LocationRecord,
    online: bool,
    created: Result<(), String>,
)
    requires
        s.wf(),
        created is Ok,
        location.local_path is Some,
    ensures
        ({
            let id = location.id;
            let w = WatcherRecord { location, path: location.local_path->0 };
            let r = add_spec(s, id, location, online, created);
            &&& r is Ok
            &&& online ==> r->Ok_0.0.watched == s.watched.insert(id, w)
            &&& !online ==> r->Ok_0.0.unwatched == s.unwatched.insert(id, w)
            &&& r->Ok_0.1.last() == WatcherAction::ScheduleCheck { location_id: id }
        }),
{
}

/// No location has both a watching and an idle watcher.
pub open spec fn filed_once(s: ManagerModel) -> bool {
    forall|k: LocationId| !(#[trigger] s.watched.contains_key(k) && s.unwatched.contains_key(k))
}

/// A periodic check never leaves a location with two watchers.
pub proof fn check_keeps_filing_unique(s: ManagerModel, id: LocationId, fetched: Option<LocationRecord>)
    requires
        s.wf(),
        filed_once(s),
    ensures
        filed_once(check_spec(s, id, fetched).0),
{
    let m = check_spec(s, id, fetched).0;
    assert forall|k: LocationId| !(#[trigger] m.watched.contains_key(k) && m.unwatched.contains_key(k)) by {
        if m.watched.contains_key(k) && m.unwatched.contains_key(k) {
            assert(s.watched.contains_key(k) || s.unwatched.contains_key(k));
        }
    }
}

/// The online part of a periodic check never leaves a location with two
/// watchers.
pub proof fn online_check_keeps_filing_unique(s: ManagerModel, id: LocationId, location: LocationRecord, online: bool)
    requires
        s.wf(),
        filed_once(s),
        location.local_path is Some,
    ensures
        filed_once(online_checked_spec(s, id, location, online).0),
{
    let m = online_checked_spec(s, id, location, online).0;
    assert forall|k: LocationId| !(#[trigger] m.watched.contains_key(k) && m.unwatched.contains_key(k)) by {
        if m.watched.contains_key(k) && m.unwatched.contains_key(k) {
            assert(s.watched.contains_key(k) || s.unwatched.contains_key(k));
        }
    }
}

/// Adding a location that has no watcher yet never leaves a location with
/// two watchers; nor does a removal request.
pub proof fn add_keeps_filing_unique(
    s: ManagerModel,
    location: LocationRecord,
    online: bool,
    created: Result<(), String>,
)
    requires
        filed_once(s),
        !s.watched.contains_key(location.id),
        !s.unwatched.contains_key(location.id),
    ensures
        add_spec(s, location.id, location, online, created) matches Ok((m, _)) ==> filed_once(m),
        filed_once(remove_request_spec(s, location.id)),
{
    let r = add_spec(s, location.id, location, online, created);
    if r is Ok {
        let m = r->Ok_0.0;
        assert forall|k: LocationId| !(#[trigger] m.watched.contains_key(k) && m.unwatched.contains_key(k)) by {
            if k != location.id {
                assert(m.watched.contains_key(k) == s.watched.contains_key(k));
                assert(m.unwatched.contains_key(k) == s.unwatched.contains_key(k));
            }
        }
    }
}

/// Whether the actions start watching some path.
pub open spec fn starts_watching(acts: Seq<WatcherAction>) -> bool {
    exists|i: int| 0 <= i < acts.len() && #[trigger] acts[i] is Watch
}

/// An online check that found the location offline never starts watching
/// any path, whatever the location's local path and the watcher's path.
pub proof fn offline_check_never_watches(s: ManagerModel, id: LocationId, location: LocationRecord)
    requires
        s.wf(),
        location.local_path is Some,
    ensures
        !starts_watching(online_checked_spec(s, id, location, false).1),
        online_checked_spec(s, id, location, false).0.unwatched.contains_key(location.id)
            <==> (s.watched.contains_key(location.id) || s.unwatched.contains_key(location.id)),
        !online_checked_spec(s, id, location, false).0.watched.contains_key(location.id),
{
    let acts = online_checked_spec(s, id, location, false).1;
    assert forall|i: int| 0 <= i < acts.len() implies !(#[trigger] acts[i] is Watch) by {}
}

/// A periodic check of a location fetched without a local path leaves it
/// without a watching watcher (stopping it on its path first, when it had
/// one) and without an idle one, unless it had both; no check follows.
pub proof fn pathless_location_loses_its_watcher(s: ManagerModel, location: LocationRecord)
    requires
        s.wf(),
        location.local_path is None,
    ensures
        ({
            let id = location.id;
            let (m, acts) = check_spec(s, id, Some(location));
            &&& acts is Some
            &&& !m.watched.contains_key(id)
            &&& m.unwatched.contains_key(id) ==> s.watched.contains_key(id) && s.unwatched.contains_key(id)
            &&& filed_once(s) ==> !m.unwatched.contains_key(id)
            &&& s.watched.contains_key(id) ==> acts->Some_0.len() > 0 && acts->Some_0[0]
                == (WatcherAction::Unwatch { slot: WatcherSlot::Watched, location_id: id, path: s.watched[id].path })
            &&& !schedules_a_check(acts->Some_0)
            &&& m.to_remove == s.to_remove
        }),
{
    let id = location.id;
    let (m, acts) = check_spec(s, id, Some(location));
    let a = acts->Some_0;
    assert forall|i: int| 0 <= i < a.len() implies !(#[trigger] a[i] is ScheduleCheck) by {}
}

/// Events in a location that is gone or offline are all skipped; in an
/// online location, creations, modifications and removals go to their
/// handlers and all other events are skipped.
pub proof fn events_of_offline_locations_are_skipped(location: Option<LocationRecord>, kind: EventKind)
    ensures
        location is None ==> event_route(location, kind) == EventRoute::Ignore,
        location matches Some(l) && !l.is_online ==> event_route(location, kind) == EventRoute::Ignore,
        location matches Some(l) && l.is_online ==> match kind {
            EventKind::Create(k) => event_route(location, kind) == EventRoute::Create(k),
            EventKind::Modify(k) => event_route(location, kind) == EventRoute::Modify(k),
            EventKind::Remove(k) => event_route(location, kind) == EventRoute::Remove(k),
            _ => event_route(location, kind) == EventRoute::Ignore,
        },
{
}

/// A modification event that is not a data or metadata change, nor a
/// rename naming both ends, is handled and leads to nothing.
pub proof fn other_modifications_lead_to_nothing(
    location: LocationRecord,
    paths: Seq<String>,
    kind: ModifyKind,
    r: Result<Option<RenamePaths>, LocationManagerError>,
)
    requires
        !(kind is Data),
        !(kind is Metadata),
        kind != ModifyKind::Name(RenameMode::Both),
    ensures
        !modify_unhandled(location, paths, kind),
        modify_outcome(location, paths, kind, r) <==> r == Ok::<Option<RenamePaths>, LocationManagerError>(None),
{
}

/// A failure to create the watcher is reported as a watcher error whatever
/// the location and its online status, and nothing is filed.
pub proof fn watcher_failure_is_reported(
    s: ManagerModel,
    id: LocationId,
    location: LocationRecord,
    online: bool,
    msg: String,
)
    ensures
        add_spec(s, id, location, online, Err(msg)) == Err::<(ManagerModel, Seq<WatcherAction>), LocationManagerError>(
            LocationManagerError::WatcherError(msg),
        ),
{
}

/// A watcher told not to watch never starts watching; where the path
/// changes it first stops watching its old path, and it ends up meant for
/// the location's local path.
pub proof fn update_moves_to_new_path(w: WatcherRecord, location: LocationRecord, to_watch: bool, slot: WatcherSlot)
    requires
        location.local_path is Some,
    ensures
        ({
            let p = location.local_path->0;
            let acts = update_actions(w, location, to_watch, slot);
            let w2 = updated_record(w, location);
            &&& !to_watch ==> !starts_watching(acts)
            &&& w2.location == location
            &&& w2.path == p || path_eq(w2.path@, p@)
            &&& !path_eq(w.path@, p@) ==> acts.len() > 0
                && acts[0] == (WatcherAction::Unwatch { slot, location_id: location.id, path: w.path })
            &&& !path_eq(w.path@, p@) && to_watch ==> acts.contains(WatcherAction::Watch { slot, location_id: location.id, path: p })
            &&& path_eq(w.path@, p@) ==> acts.len() == 0
        }),
{
    let acts = update_actions(w, location, to_watch, slot);
    let p = location.local_path->0;
    if !path_eq(w.path@, p@) && to_watch {
        assert(acts[1] == WatcherAction::Watch { slot, location_id: location.id, path: p });
    }
    assert forall|i: int| 0 <= i < acts.len() && !to_watch implies !(#[trigger] acts[i] is Watch) by {}
}

/// An online check that found the location online leaves its watcher (if it
/// had one) watching the path it is meant for, which is the location's
/// local path; one that found it offline stops the watching watcher on the
/// path it was watching.
pub proof fn online_check_watches_the_right_path(s: ManagerModel, id: LocationId, location: LocationRecord, online: bool)
    requires
        s.wf(),
        location.local_path is Some,
    ensures
        ({
            let p = location.local_path->0;
            let lid = location.id;
            let (m, acts) = online_checked_spec(s, id, location, online);
            &&& online && s.unwatched.contains_key(lid) ==> {
                &&& acts.contains(WatcherAction::Watch { slot: WatcherSlot::Unwatched, location_id: lid, path: m.watched[lid].path })
                &&& m.watched[lid].path == p || path_eq(m.watched[lid].path@, p@)
            }
            &&& !online && s.watched.contains_key(lid) ==> {
                &&& acts.contains(WatcherAction::Unwatch { slot: WatcherSlot::Watched, location_id: lid, path: s.watched[lid].path })
                &&& m.unwatched[lid].path == p || path_eq(m.unwatched[lid].path@, p@)
            }
            &&& !(s.watched.contains_key(lid) || s.unwatched.contains_key(lid)) ==> m == s
                && acts == seq![WatcherAction::ScheduleCheck { location_id: id }]
        }),
{
    let p = location.local_path->0;
    let lid = location.id;
    let (m, acts) = online_checked_spec(s, id, location, online);
    if online && s.unwatched.contains_key(lid) {
        let w = s.unwatched[lid];
        if path_eq(w.path@, p@) {
            assert(acts[0] == WatcherAction::Watch { slot: WatcherSlot::Unwatched, location_id: lid, path: m.watched[lid].path });
        } else {
            assert(acts[1] == WatcherAction::Watch { slot: WatcherSlot::Unwatched, location_id: lid, path: m.watched[lid].path });
        }
    }
    if !online && s.watched.contains_key(lid) {
        assert(acts[0] == WatcherAction::Unwatch { slot: WatcherSlot::Watched, location_id: lid, path: s.watched[lid].path });
    }
    if !(s.watched.contains_key(lid) || s.unwatched.contains_key(lid)) {
        assert(acts =~= seq![WatcherAction::ScheduleCheck { location_id: id }]);
    }
}

/// A check of a location that is not marked for removal and still has a
/// local path changes nothing and goes on with the online check.
pub proof fn managed_location_goes_on_to_online_check(s: ManagerModel, location: LocationRecord)
    requires
        location.local_path is Some,
        !s.to_remove.contains(location.id),
    ensures
        check_spec(s, location.id, Some(location)) == (s, None::<Seq<WatcherAction>>),
{
}

/// A removal request marks the location and touches no watcher.
pub proof fn remove_request_only_marks(s: ManagerModel, id: LocationId)
    ensures
        remove_request_spec(s, id).to_remove.contains(id),
        remove_request_spec(s, id).to_remove.remove(id) == s.to_remove.remove(id),
        remove_request_spec(s, id).watched == s.watched,
        remove_request_spec(s, id).unwatched == s.unwatched,
{
    assert(remove_request_spec(s, id).to_remove.remove(id) =~= s.to_remove.remove(id));
}

/// A location added offline is not watched; one added online is watched on
/// its local path by its new watcher.
pub proof fn added_location_watched_iff_online(
    s: ManagerModel,
    location: LocationRecord,
    online: bool,
)
    requires
        location.local_path is Some,
    ensures
        ({
            let r = add_spec(s, location.id, location, online, Ok(()));
            let acts = r->Ok_0.1;
            &&& r is Ok
            &&& !online ==> !starts_watching(acts) && r->Ok_0.0.watched == s.watched
            &&& online ==> acts.contains(WatcherAction::Watch {
                slot: WatcherSlot::Created,
                location_id: location.id,
                path: location.local_path->0,
            }) && r->Ok_0.0.unwatched == s.unwatched
        }),
{
    let r = add_spec(s, location.id, location, online, Ok(()));
    let acts = r->Ok_0.1;
    if online {
        assert(acts[0] == WatcherAction::Watch { slot: WatcherSlot::Created, location_id: location.id, path: location.local_path->0 });
    }
    assert forall|i: int| 0 <= i < acts.len() && !online implies !(#[trigger] acts[i] is Watch) by {}
}

/// The online flag is stored only where it changes, and then it is the
/// status found; a failed lookup of an existing local path never changes it.
pub proof fn stored_flag_follows_status(location: LocationRecord, probe: PathProbe)
    ensures
        ({
            let online = location.local_path is Some && probe is Found;
            let u = online_flag_update(location, probe);
            &&& u matches Some(b) ==> b == online && b != location.is_online
            &&& u is None ==> location.is_online == online || (location.local_path is Some && probe is Failed)
            &&& location.local_path is Some && probe is Failed ==> u is None
        }),
{
}

/// An event is handled exactly when none of its paths mentions `.DS_Store`:
/// adding a path to an event keeps it handled only if that path does not.
pub proof fn ds_store_paths_spoil_events(paths: Seq<String>, p: String)
    ensures
        event_is_relevant(paths.push(p)) == (event_is_relevant(paths) && !contains_text(p@, ".DS_Store"@)),
        event_is_relevant(Seq::<String>::empty()),
{
    let q = paths.push(p);
    if event_is_relevant(paths) && !contains_text(p@, ".DS_Store"@) {
        assert forall|i: int| 0 <= i < q.len() implies !contains_text(#[trigger] q[i]@, ".DS_Store"@) by {
            if i < paths.len() {
                assert(q[i] == paths[i]);
            }
        }
    }
    if !event_is_relevant(paths) {
        let i = choose|i: int| 0 <= i < paths.len() && contains_text(#[trigger] paths[i]@, ".DS_Store"@);
        assert(q[i] == paths[i]);
    }
    if contains_text(p@, ".DS_Store"@) {
        assert(q[paths.len() as int] == p);
    }
}

/// A created entry is a directory exactly for a folder, has an extension
/// exactly when it is not a folder, gets an object exactly when it is a
/// file, and keeps the created path as its materialized path.
pub proof fn created_entry_follows_kind(subpath: Seq<char>, kind: CreateKind, e: CreatePlan)
    requires
        create_plan_outcome(subpath, kind, Some(e)),
    ensures
        e.is_dir <==> kind == CreateKind::Folder,
        e.extension is None <==> kind == CreateKind::Folder,
        e.assemble_object <==> kind == CreateKind::File,
        e.materialized_path@ == subpath,
{
}

} // verus!
