use location_manager::error::LocationManagerError;
use location_manager::events::{
    check_event, create_lookup_from, create_plan_from, plan_create, plan_create_lookup, plan_modify,
    plan_create_step, plan_modify_event, plan_rename_step, thumbnail_output_path, CreateStep,
    plan_remove, plan_rename_updates, route_event, text_contains, thumbnail_candidate, CreateKind,
    CreateLookup, CreatePlan, EntryRename, EventKind, EventRoute, ExistingFilePath, ModifyKind,
    RemoveKind, RemovePlan, RenameMode, RenamePaths, RenameUpdates,
};
use location_manager::location::LocationRecord;
use location_manager::online::PathProbe;

fn loc(id: i32, path: Option<&str>, online: bool) -> LocationRecord {
    LocationRecord { id, local_path: path.map(|p| p.to_string()), is_online: online }
}

fn strings(v: &[&str]) -> Vec<String> {
    v.iter().map(|s| s.to_string()).collect()
}

#[test]
fn ds_store_events_are_ignored() {
    assert!(!check_event(&strings(&["/a/.DS_Store"])));
    assert!(!check_event(&strings(&["/a/b.txt", "/a/x.DS_Store.tmp"])));
    assert!(check_event(&strings(&["/a/b.txt"])));
    assert!(check_event(&strings(&[])));
    assert!(check_event(&strings(&["/a/DS_Store"])));
}

#[test]
fn text_search() {
    assert!(text_contains("abcdef", "cde"));
    assert!(text_contains("abc", ""));
    assert!(!text_contains("ab", "abc"));
    assert!(text_contains("abc", "abc"));
    assert!(!text_contains("abcabd", "abe"));
}

#[test]
fn events_route_by_kind() {
    let online = Some(loc(1, Some("/a"), true));
    assert_eq!(route_event(&online, EventKind::Create(CreateKind::File)), EventRoute::Create(CreateKind::File));
    assert_eq!(
        route_event(&online, EventKind::Modify(ModifyKind::Name(RenameMode::Both))),
        EventRoute::Modify(ModifyKind::Name(RenameMode::Both))
    );
    assert_eq!(route_event(&online, EventKind::Remove(RemoveKind::Any)), EventRoute::Remove(RemoveKind::Any));
    assert_eq!(route_event(&online, EventKind::Access), EventRoute::Ignore);
    assert_eq!(route_event(&online, EventKind::Other), EventRoute::Ignore);
}

#[test]
fn offline_or_missing_location_ignores_events() {
    assert_eq!(route_event(&Some(loc(1, Some("/a"), false)), EventKind::Create(CreateKind::File)), EventRoute::Ignore);
    assert_eq!(route_event(&None, EventKind::Create(CreateKind::File)), EventRoute::Ignore);
}

#[test]
fn created_file_is_looked_up_under_its_parent() {
    let l = loc(1, Some("/home/u/photos"), true);
    assert_eq!(
        plan_create_lookup(&l, "/home/u/photos/2020/a.jpg"),
        Some(CreateLookup::FindParent { subpath: "2020/a.jpg".to_string(), parent: "2020".to_string() })
    );
    assert_eq!(
        plan_create_lookup(&l, "/home/u/photos/a.jpg"),
        Some(CreateLookup::FindParent { subpath: "a.jpg".to_string(), parent: String::new() })
    );
}

#[test]
fn create_outside_location_is_ignored() {
    assert_eq!(plan_create_lookup(&loc(1, Some("/home/u/photos"), true), "/tmp/a"), Some(CreateLookup::Ignore));
    assert_eq!(plan_create_lookup(&loc(1, None, true), "/tmp/a"), Some(CreateLookup::Ignore));
}

#[test]
fn create_of_location_root_is_not_handled() {
    assert_eq!(plan_create_lookup(&loc(1, Some("/home/u/photos"), true), "/home/u/photos"), None);
}

#[test]
fn create_lookup_from_results() {
    assert_eq!(create_lookup_from(None, None), CreateLookup::Ignore);
    assert_eq!(
        create_lookup_from(Some("d/f".to_string()), Some("d".to_string())),
        CreateLookup::FindParent { subpath: "d/f".to_string(), parent: "d".to_string() }
    );
}

#[test]
fn created_file_entry() {
    assert_eq!(
        plan_create("2020/a.jpg", CreateKind::File),
        Some(CreatePlan {
            materialized_path: "2020/a.jpg".to_string(),
            name: "a".to_string(),
            extension: Some("jpg".to_string()),
            is_dir: false,
            assemble_object: true,
        })
    );
}

#[test]
fn created_folder_entry() {
    assert_eq!(
        plan_create("2020/album.v2", CreateKind::Folder),
        Some(CreatePlan {
            materialized_path: "2020/album.v2".to_string(),
            name: "album".to_string(),
            extension: None,
            is_dir: true,
            assemble_object: false,
        })
    );
}

#[test]
fn created_entry_without_extension() {
    assert_eq!(
        plan_create(".hidden", CreateKind::Any),
        Some(CreatePlan {
            materialized_path: ".hidden".to_string(),
            name: ".hidden".to_string(),
            extension: Some(String::new()),
            is_dir: false,
            assemble_object: false,
        })
    );
}

#[test]
fn created_entry_without_stem_is_not_handled() {
    assert_eq!(plan_create("a/..", CreateKind::File), None);
}

#[test]
fn create_plan_from_results() {
    assert_eq!(
        create_plan_from("x/y.tar.gz".to_string(), "y.tar".to_string(), Some("gz".to_string()), CreateKind::File),
        CreatePlan {
            materialized_path: "x/y.tar.gz".to_string(),
            name: "y.tar".to_string(),
            extension: Some("gz".to_string()),
            is_dir: false,
            assemble_object: true,
        }
    );
    assert_eq!(
        create_plan_from("x/y".to_string(), "y".to_string(), None, CreateKind::Other).extension,
        Some(String::new())
    );
}

#[test]
fn thumbnail_only_without_one() {
    assert_eq!(thumbnail_candidate(false, &Some("png".to_string())), Some("png".to_string()));
    assert_eq!(thumbnail_candidate(true, &Some("png".to_string())), None);
    assert_eq!(thumbnail_candidate(false, &None), None);
}

#[test]
fn rename_with_both_ends() {
    let l = loc(1, Some("/p"), true);
    assert_eq!(
        plan_modify(&l, &strings(&["/p/a/old.txt", "/p/b/new.txt"]), ModifyKind::Name(RenameMode::Both)),
        Ok(Some(RenamePaths { old_path: "a/old.txt".to_string(), new_path: "b/new.txt".to_string() }))
    );
}

#[test]
fn rename_out_of_location_fails() {
    let l = loc(1, Some("/p"), true);
    assert_eq!(
        plan_modify(&l, &strings(&["/p/a.txt", "/q/a.txt"]), ModifyKind::Name(RenameMode::Both)),
        Err(LocationManagerError::UnableToExtractMaterializedPath(1, "/q/a.txt".to_string()))
    );
    assert_eq!(
        plan_modify(&loc(2, None, true), &strings(&["/p/a.txt", "/p/b.txt"]), ModifyKind::Name(RenameMode::Both)),
        Err(LocationManagerError::LocationMissingLocalPath(2))
    );
}

#[test]
fn other_modifications_do_nothing() {
    let l = loc(1, Some("/p"), true);
    assert_eq!(plan_modify(&l, &strings(&["/p/a"]), ModifyKind::Name(RenameMode::To)), Ok(None));
    assert_eq!(plan_modify(&l, &strings(&["/p/a"]), ModifyKind::Any), Ok(None));
    assert_eq!(plan_modify(&l, &strings(&[]), ModifyKind::Other), Ok(None));
}

#[test]
fn renamed_directory_rewrites_descendants() {
    assert_eq!(
        plan_rename_updates(true, "b/photos"),
        RenameUpdates {
            rewrite_descendants: true,
            entry: Some(EntryRename { materialized_path: "b/photos".to_string(), name: "photos".to_string() }),
        }
    );
    assert_eq!(
        plan_rename_updates(false, "b/new.txt"),
        RenameUpdates {
            rewrite_descendants: false,
            entry: Some(EntryRename { materialized_path: "b/new.txt".to_string(), name: "new".to_string() }),
        }
    );
    assert_eq!(plan_rename_updates(false, "b/.."), RenameUpdates { rewrite_descendants: false, entry: None });
}

#[test]
fn removed_directory_is_deleted_with_contents() {
    let f = ExistingFilePath { id: 9, is_dir: true, materialized_path: "a/b".to_string(), object_id: None };
    assert_eq!(
        plan_remove(1, &f, &PathProbe::NotFound),
        Ok(RemovePlan::DeleteDirectory { location_id: 1, materialized_path: "a/b".to_string() })
    );
}

#[test]
fn removed_file_is_deleted_with_object() {
    let f = ExistingFilePath { id: 9, is_dir: false, materialized_path: "a/b.txt".to_string(), object_id: Some(4) };
    assert_eq!(
        plan_remove(1, &f, &PathProbe::NotFound),
        Ok(RemovePlan::DeleteFile { location_id: 1, file_path_id: 9, object_id: Some(4) })
    );
}

#[test]
fn failed_lookup_of_removed_path_is_an_error() {
    let f = ExistingFilePath { id: 9, is_dir: false, materialized_path: "a".to_string(), object_id: None };
    assert_eq!(
        plan_remove(1, &f, &PathProbe::Failed("denied".to_string())),
        Err(LocationManagerError::IOError("denied".to_string()))
    );
}

#[test]
fn unhandled_modifications_are_told_apart() {
    let l = loc(1, Some("/p"), true);
    assert_eq!(plan_modify_event(&l, &strings(&["/p/a"]), ModifyKind::Data), None);
    assert_eq!(plan_modify_event(&l, &strings(&["/p/a"]), ModifyKind::Metadata), None);
    assert_eq!(plan_modify_event(&l, &strings(&[]), ModifyKind::Name(RenameMode::Both)), None);
    assert_eq!(plan_modify_event(&l, &strings(&["/p/a"]), ModifyKind::Name(RenameMode::Both)), None);
}

#[test]
fn rename_with_one_path_outside_location_fails() {
    let l = loc(1, Some("/p"), true);
    assert_eq!(
        plan_modify_event(&l, &strings(&["/q/a"]), ModifyKind::Name(RenameMode::Both)),
        Some(Err(LocationManagerError::UnableToExtractMaterializedPath(1, "/q/a".to_string())))
    );
}

#[test]
fn handled_modifications_are_planned() {
    let l = loc(1, Some("/p"), true);
    assert_eq!(
        plan_modify_event(&l, &strings(&["/p/a", "/p/b"]), ModifyKind::Name(RenameMode::Both)),
        Some(Ok(Some(RenamePaths { old_path: "a".to_string(), new_path: "b".to_string() })))
    );
    assert_eq!(plan_modify_event(&l, &strings(&["/p/a"]), ModifyKind::Name(RenameMode::From)), Some(Ok(None)));
}

#[test]
fn thumbnail_goes_to_cache_directory() {
    assert_eq!(thumbnail_output_path("/data", "thumbnails", "abc123"), "/data/thumbnails/abc123.webp");
    assert_eq!(thumbnail_output_path("/data/", "thumbnails", "a.b"), "/data/thumbnails/a.webp");
}

#[test]
fn create_step_after_parent_lookup() {
    let parent = ExistingFilePath { id: 5, is_dir: true, materialized_path: "d".to_string(), object_id: None };
    assert_eq!(plan_create_step("d/f.txt", CreateKind::File, &None), Some(CreateStep::NoParent));
    assert_eq!(
        plan_create_step("d/f.txt", CreateKind::File, &Some(parent)),
        Some(CreateStep::Create {
            entry: CreatePlan {
                materialized_path: "d/f.txt".to_string(),
                name: "f".to_string(),
                extension: Some("txt".to_string()),
                is_dir: false,
                assemble_object: true,
            },
            parent_id: 5,
        })
    );
    let parent = ExistingFilePath { id: 5, is_dir: true, materialized_path: "d".to_string(), object_id: None };
    assert_eq!(plan_create_step("d/..", CreateKind::File, &Some(parent)), None);
}

#[test]
fn rename_step_after_entry_lookup() {
    assert_eq!(plan_rename_step(&None, "b/new.txt"), None);
    let f = ExistingFilePath { id: 7, is_dir: true, materialized_path: "a".to_string(), object_id: None };
    assert_eq!(
        plan_rename_step(&Some(f), "b"),
        Some((
            7,
            RenameUpdates {
                rewrite_descendants: true,
                entry: Some(EntryRename { materialized_path: "b".to_string(), name: "b".to_string() }),
            }
        ))
    );
}
