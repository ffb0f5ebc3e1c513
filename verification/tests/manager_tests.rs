use location_manager::error::LocationManagerError;
use location_manager::location::{LocationRecord, WatcherAction, WatcherSlot};
use location_manager::manager::{CheckStep, ManagerState};

fn loc(id: i32, path: Option<&str>, online: bool) -> LocationRecord {
    LocationRecord { id, local_path: path.map(|p| p.to_string()), is_online: online }
}

fn watch(slot: WatcherSlot, id: i32, path: &str) -> WatcherAction {
    WatcherAction::Watch { slot, location_id: id, path: path.to_string() }
}

fn unwatch(slot: WatcherSlot, id: i32, path: &str) -> WatcherAction {
    WatcherAction::Unwatch { slot, location_id: id, path: path.to_string() }
}

#[test]
fn added_online_location_is_watched() {
    let mut m = ManagerState::new();
    let acts = m.on_location_added(1, loc(1, Some("/data/photos"), true), true, Ok(())).unwrap();
    assert_eq!(
        acts,
        vec![
            watch(WatcherSlot::Created, 1, "/data/photos"),
            WatcherAction::Move { from: WatcherSlot::Created, to: WatcherSlot::Watched, location_id: 1 },
            WatcherAction::ScheduleCheck { location_id: 1 },
        ]
    );
    assert!(m.is_watched(1));
    assert!(!m.is_unwatched(1));
    assert_eq!(m.watched_record(1).unwrap().path, "/data/photos");
}

#[test]
fn added_offline_location_is_idle() {
    let mut m = ManagerState::new();
    let acts = m.on_location_added(2, loc(2, Some("/mnt/usb"), false), false, Ok(())).unwrap();
    assert_eq!(
        acts,
        vec![
            WatcherAction::Move { from: WatcherSlot::Created, to: WatcherSlot::Unwatched, location_id: 2 },
            WatcherAction::ScheduleCheck { location_id: 2 },
        ]
    );
    assert!(!m.is_watched(2));
    assert!(m.is_unwatched(2));
}

#[test]
fn watcher_failure_is_reported_first() {
    let mut m = ManagerState::new();
    let r = m.on_location_added(3, loc(3, None, true), true, Err("too many watches".to_string()));
    assert_eq!(r, Err(LocationManagerError::WatcherError("too many watches".to_string())));
    assert!(!m.is_watched(3) && !m.is_unwatched(3));
}

#[test]
fn location_without_path_cannot_be_added() {
    let mut m = ManagerState::new();
    let r = m.on_location_added(4, loc(4, None, false), false, Ok(()));
    assert_eq!(r, Err(LocationManagerError::LocationMissingLocalPath(4)));
    assert!(!m.is_watched(4) && !m.is_unwatched(4));
}

#[test]
fn remove_request_only_marks() {
    let mut m = ManagerState::new();
    m.on_location_added(5, loc(5, Some("/a"), true), true, Ok(())).unwrap();
    m.on_remove_requested(5);
    m.on_remove_requested(5);
    assert!(m.is_marked_for_removal(5));
    assert!(m.is_watched(5));
}

#[test]
fn marked_location_goes_at_next_check() {
    let mut m = ManagerState::new();
    m.on_location_added(6, loc(6, Some("/a"), true), true, Ok(())).unwrap();
    m.on_remove_requested(6);
    let step = m.on_location_checked(6, Some(loc(6, Some("/a"), true)));
    assert_eq!(
        step,
        CheckStep::Finished(vec![
            unwatch(WatcherSlot::Watched, 6, "/a"),
            WatcherAction::Move { from: WatcherSlot::Watched, to: WatcherSlot::Unwatched, location_id: 6 },
            WatcherAction::Drop { slot: WatcherSlot::Unwatched, location_id: 6 },
        ])
    );
    assert!(!m.is_watched(6) && !m.is_unwatched(6) && !m.is_marked_for_removal(6));
}

#[test]
fn vanished_location_is_forgotten() {
    let mut m = ManagerState::new();
    m.on_location_added(7, loc(7, Some("/a"), true), true, Ok(())).unwrap();
    m.on_remove_requested(7);
    let step = m.on_location_checked(7, None);
    assert_eq!(
        step,
        CheckStep::Finished(vec![
            unwatch(WatcherSlot::Watched, 7, "/a"),
            WatcherAction::Drop { slot: WatcherSlot::Watched, location_id: 7 },
        ])
    );
    assert!(!m.is_watched(7) && !m.is_unwatched(7) && !m.is_marked_for_removal(7));
}

#[test]
fn location_that_lost_its_path_is_forgotten_but_stays_marked() {
    let mut m = ManagerState::new();
    m.on_location_added(8, loc(8, Some("/a"), false), false, Ok(())).unwrap();
    m.on_remove_requested(8);
    let step = m.on_location_checked(8, Some(loc(8, None, false)));
    assert_eq!(
        step,
        CheckStep::Finished(vec![WatcherAction::Drop { slot: WatcherSlot::Unwatched, location_id: 8 }])
    );
    assert!(!m.is_unwatched(8));
    assert!(m.is_marked_for_removal(8));
}

#[test]
fn unknown_location_check_does_nothing() {
    let mut m = ManagerState::new();
    let step = m.on_location_checked(9, None);
    assert_eq!(step, CheckStep::Finished(vec![]));
}

#[test]
fn check_of_managed_location_needs_online_status() {
    let mut m = ManagerState::new();
    m.on_location_added(10, loc(10, Some("/a"), false), false, Ok(())).unwrap();
    let step = m.on_location_checked(10, Some(loc(10, Some("/a"), false)));
    assert_eq!(step, CheckStep::OnlineCheckNeeded);
    assert!(m.is_unwatched(10));
}

#[test]
fn location_coming_online_starts_watching() {
    let mut m = ManagerState::new();
    m.on_location_added(11, loc(11, Some("/a"), false), false, Ok(())).unwrap();
    let acts = m.on_online_checked(11, loc(11, Some("/a"), false), true);
    assert_eq!(
        acts,
        vec![
            watch(WatcherSlot::Unwatched, 11, "/a"),
            WatcherAction::Move { from: WatcherSlot::Unwatched, to: WatcherSlot::Watched, location_id: 11 },
            WatcherAction::ScheduleCheck { location_id: 11 },
        ]
    );
    assert!(m.is_watched(11) && !m.is_unwatched(11));
}

#[test]
fn location_going_offline_stops_watching() {
    let mut m = ManagerState::new();
    m.on_location_added(12, loc(12, Some("/a"), true), true, Ok(())).unwrap();
    let acts = m.on_online_checked(12, loc(12, Some("/a"), true), false);
    assert_eq!(
        acts,
        vec![
            unwatch(WatcherSlot::Watched, 12, "/a"),
            WatcherAction::Move { from: WatcherSlot::Watched, to: WatcherSlot::Unwatched, location_id: 12 },
            WatcherAction::ScheduleCheck { location_id: 12 },
        ]
    );
    assert!(!m.is_watched(12) && m.is_unwatched(12));
}

#[test]
fn moved_location_is_watched_at_its_new_path() {
    let mut m = ManagerState::new();
    m.on_location_added(13, loc(13, Some("/old"), false), false, Ok(())).unwrap();
    let acts = m.on_online_checked(13, loc(13, Some("/new"), true), true);
    assert_eq!(
        acts,
        vec![
            unwatch(WatcherSlot::Unwatched, 13, "/old"),
            watch(WatcherSlot::Unwatched, 13, "/new"),
            WatcherAction::Move { from: WatcherSlot::Unwatched, to: WatcherSlot::Watched, location_id: 13 },
            WatcherAction::ScheduleCheck { location_id: 13 },
        ]
    );
    let rec = m.watched_record(13).unwrap();
    assert_eq!(rec.path, "/new");
    assert!(rec.location.is_online);
}

#[test]
fn same_path_in_other_spelling_keeps_watcher_record() {
    let mut m = ManagerState::new();
    m.on_location_added(14, loc(14, Some("/data//photos"), false), false, Ok(())).unwrap();
    let acts = m.on_online_checked(14, loc(14, Some("/data/photos/"), true), true);
    assert_eq!(
        acts,
        vec![
            watch(WatcherSlot::Unwatched, 14, "/data//photos"),
            WatcherAction::Move { from: WatcherSlot::Unwatched, to: WatcherSlot::Watched, location_id: 14 },
            WatcherAction::ScheduleCheck { location_id: 14 },
        ]
    );
    let rec = m.watched_record(14).unwrap();
    assert_eq!(rec.path, "/data//photos");
    assert!(!rec.location.is_online);
}

#[test]
fn online_then_offline_restores_bookkeeping() {
    let mut m = ManagerState::new();
    m.on_location_added(15, loc(15, Some("/a"), false), false, Ok(())).unwrap();
    m.on_online_checked(15, loc(15, Some("/a"), false), true);
    m.on_online_checked(15, loc(15, Some("/a"), false), false);
    assert!(!m.is_watched(15) && m.is_unwatched(15));
    assert_eq!(m.unwatched_record(15).unwrap().path, "/a");
    assert_eq!(m.unwatched_record(15).unwrap().location, loc(15, Some("/a"), false));
}

#[test]
fn check_of_location_without_watcher_only_reschedules() {
    let mut m = ManagerState::new();
    let acts = m.on_online_checked(16, loc(16, Some("/a"), true), true);
    assert_eq!(acts, vec![WatcherAction::ScheduleCheck { location_id: 16 }]);
    assert!(!m.is_watched(16) && !m.is_unwatched(16));
}

#[test]
fn location_is_filed_once_across_checks() {
    let mut m = ManagerState::new();
    m.on_location_added(17, loc(17, Some("/a"), false), false, Ok(())).unwrap();
    for online in [true, true, false, true, false, false] {
        m.on_online_checked(17, loc(17, Some("/a"), online), online);
        assert!(m.is_watched(17) != m.is_unwatched(17));
        assert_eq!(m.is_watched(17), online);
    }
}

#[test]
fn adding_a_filed_location_again_keeps_both_watchers() {
    let mut m = ManagerState::new();
    m.on_location_added(18, loc(18, Some("/a"), true), true, Ok(())).unwrap();
    m.on_location_added(18, loc(18, Some("/a"), false), false, Ok(())).unwrap();
    assert!(m.is_watched(18) && m.is_unwatched(18));
}
