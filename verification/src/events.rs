use vstd::prelude::*;

use crate::error::{LocationId, LocationManagerError};
use crate::location::LocationRecord;
use crate::online::PathProbe;
use crate::paths::{
    extension_of, extract_materialized_path, file_stem_of, join_path, path_join, path_with_extension,
    with_extension, is_extraction_error, materialized,
    opt_text, parent_of, path_extension, path_file_stem, path_parent, path_strip_prefix,
    subtract_location_path,
};

verus! {

/// The kind of a creation event.
#[derive(Debug, Clone, Copy, PartialEq, Eq, Structural)]
pub enum CreateKind {
    Any,
    File,
    Folder,
    Other,
}

/// The kind of a rename event.
#[derive(Debug, Clone, Copy, PartialEq, Eq, Structural)]
pub enum RenameMode {
    Any,
    To,
    From,
    Both,
    Other,
}

/// The kind of a modification event.
#[derive(Debug, Clone, Copy, PartialEq, Eq, Structural)]
pub enum ModifyKind {
    Any,
    Data,
    Metadata,
    Name(RenameMode),
    Other,
}

/// The kind of a removal event.
#[derive(Debug, Clone, Copy, PartialEq, Eq, Structural)]
pub enum RemoveKind {
    Any,
    File,
    Folder,
    Other,
}

/// The kind of a file system event.
#[derive(Debug, Clone, Copy, PartialEq, Eq, Structural)]
pub enum EventKind {
    Any,
    Access,
    Create(CreateKind),
    Modify(ModifyKind),
    Remove(RemoveKind),
    Other,
}

/// Whether `needle` occurs in `hay` as a contiguous run of characters.
pub open spec fn contains_text(hay: Seq<char>, needle: Seq<char>) -> bool {
    exists|i: int| 0 <= i && i + needle.len() <= hay.len() && #[trigger] hay.subrange(i, i + needle.len()) == needle
}

fn text_at(hay: &str, needle: &str, needle_len: usize, start: usize) -> (r: bool)
    requires
        needle_len == needle@.len(),
        start + needle_len <= hay@.len(),
        hay@.len() <= usize::MAX,
    ensures
        r == (hay@.subrange(start as int, start + needle_len) == needle@),
{
    let mut j: usize = 0;
    while j < needle_len
        invariant
            needle_len == needle@.len(),
            start + needle_len <= hay@.len(),
            hay@.len() <= usize::MAX,
            j <= needle_len,
            forall|k: int| 0 <= k < j ==> hay@[start + k] == needle@[k],
        decreases needle_len - j,
    {
        if hay.get_char(start + j) != needle.get_char(j) {
            assert(hay@.subrange(start as int, start + needle_len)[j as int] != needle@[j as int]);
            return false;
        }
        j = j + 1;
    }
    assert(hay@.subrange(start as int, start + needle_len) =~= needle@);
    true
}

/// Whether `needle` occurs in `hay`.
pub fn text_contains(hay: &str, needle: &str) -> (r: bool)
    ensures
        r == contains_text(hay@, needle@),
{
    let hay_len = hay.unicode_len();
    let needle_len = needle.unicode_len();
    if needle_len > hay_len {
        assert forall|i: int| 0 <= i && i + needle@.len() <= hay@.len() implies
            #[trigger] hay@.subrange(i, i + needle@.len()) != needle@ by {}
        return false;
    }
    let last = hay_len - needle_len;
    let mut i: usize = 0;
    loop
        invariant
            hay_len == hay@.len(),
            needle_len == needle@.len(),
            last == hay_len - needle_len,
            i <= last,
            forall|k: int| 0 <= k < i ==> #[trigger] hay@.subrange(k, k + needle_len) != needle@,
        decreases last - i,
    {
        if text_at(hay, needle, needle_len, i) {
            return true;
        }
        if i == last {
            assert forall|k: int| 0 <= k && k + needle@.len() <= hay@.len() implies
                #[trigger] hay@.subrange(k, k + needle@.len()) != needle@ by {
                if k == i {
                } else {
                    assert(k < i);
                }
            }
            return false;
        }
        i = i + 1;
    }
}

/// Whether an event on these paths is worth handling: none of them may
/// touch a `.DS_Store` file.
pub open spec fn event_is_relevant(paths: Seq<String>) -> bool {
    !exists|i: int| 0 <= i < paths.len() && contains_text(#[trigger] paths[i]@, ".DS_Store"@)
}

/// Whether an event on `paths` (as text) is to be handled: it is ignored where
/// any of its paths contains `.DS_Store`.
pub fn check_event(paths: &Vec<String>) -> (r: bool)
    ensures
        r == event_is_relevant(paths@),
{
    let mut i: usize = 0;
    while i < paths.len()
        invariant
            i <= paths.len(),
            forall|k: int| 0 <= k < i ==> !contains_text(#[trigger] paths@[k]@, ".DS_Store"@),
        decreases paths.len() - i,
    {
        if text_contains(paths[i].as_str(), ".DS_Store") {
            return false;
        }
        i = i + 1;
    }
    true
}

/// Which handler a file system event goes to.
#[derive(Debug, Clone, Copy, PartialEq, Eq, Structural)]
pub enum EventRoute {
    /// Nothing is done.
    Ignore,
    Create(CreateKind),
    Modify(ModifyKind),
    Remove(RemoveKind),
}

/// Where an event of `kind` in a location goes, given the location as fetched
/// from the database: nowhere if it is gone or offline, else by kind.
pub open spec fn event_route(location: Option<LocationRecord>, kind: EventKind) -> EventRoute {
    match location {
        None => EventRoute::Ignore,
        Some(l) => if !l.is_online {
            EventRoute::Ignore
        } else {
            match kind {
                EventKind::Create(k) => EventRoute::Create(k),
                EventKind::Modify(k) => EventRoute::Modify(k),
                EventKind::Remove(k) => EventRoute::Remove(k),
                _ => EventRoute::Ignore,
            }
        },
    }
}

/// Routes an event of `kind` in a location (as fetched from the database).
pub fn route_event(location: &Option<LocationRecord>, kind: EventKind) -> (r: EventRoute)
    ensures
        r == event_route(*location, kind),
        *location matches Some(l) && !l.is_online ==> r == EventRoute::Ignore,
{
    match location {
        None => EventRoute::Ignore,
        Some(l) => {
            if !l.is_online {
                EventRoute::Ignore
            } else {
                match kind {
                    EventKind::Create(k) => EventRoute::Create(k),
                    EventKind::Modify(k) => EventRoute::Modify(k),
                    EventKind::Remove(k) => EventRoute::Remove(k),
                    _ => EventRoute::Ignore,
                }
            }
        },
    }
}

/// What a creation event leads to before any database work.
#[derive(Debug, PartialEq, Eq)]
pub enum CreateLookup {
    /// Nothing is created: the location has no local path, or the created
    /// path does not lie inside it.
    Ignore,
    /// The parent directory is looked up by its materialized path `parent`,
    /// to create the entry `subpath` below it.
    FindParent { subpath: String, parent: String },
}

/// What a creation event leads to, given the created path with the
/// location's path taken off (`stripped`) and that path's parent (`parent`).
pub fn create_lookup_from(stripped: Option<String>, parent: Option<String>) -> (r: CreateLookup)
    requires
        stripped is Some ==> parent is Some,
    ensures
        match stripped {
            None => r == CreateLookup::Ignore,
            Some(s) => r == (CreateLookup::FindParent { subpath: s, parent: parent->0 }),
        },
{
    match stripped {
        None => CreateLookup::Ignore,
        Some(subpath) => match parent {
            Some(parent) => CreateLookup::FindParent { subpath, parent },
            None => CreateLookup::Ignore,
        },
    }
}

/// What a creation event at `event_path` in `location` leads to before any
/// database work; `None` where the created path, taken relative to the
/// location, has no parent (such an event is not handled).
pub fn plan_create_lookup(location: &LocationRecord, event_path: &str) -> (r: Option<CreateLookup>)
    ensures
        match location.local_path {
            None => r == Some(CreateLookup::Ignore),
            Some(lp) => match path_strip_prefix(event_path@, lp@) {
                None => r == Some(CreateLookup::Ignore),
                Some(sub) => match path_parent(sub) {
                    None => r is None,
                    Some(par) => r matches Some(CreateLookup::FindParent { subpath, parent })
                        && subpath@ == sub && parent@ == par,
                },
            },
        },
{
    match &location.local_path {
        None => Some(CreateLookup::Ignore),
        Some(lp) => {
            let stripped = subtract_location_path(lp.as_str(), event_path);
            match &stripped {
                None => Some(create_lookup_from(None, None)),
                Some(sub) => {
                    let parent = parent_of(sub.as_str());
                    if parent.is_none() {
                        None
                    } else {
                        Some(create_lookup_from(stripped, parent))
                    }
                },
            }
        },
    }
}

/// The entry to create for a created path whose parent directory was found.
#[derive(Debug, PartialEq, Eq)]
pub struct CreatePlan {
    /// The entry's path relative to the location.
    pub materialized_path: String,
    /// The file name without its extension.
    pub name: String,
    /// The extension (empty where there is none); `None` for a directory.
    pub extension: Option<String>,
    pub is_dir: bool,
    /// Whether an object is to be built from the file's contents (for files only).
    pub assemble_object: bool,
}

/// The extension text that goes into the entry: the path's extension, or
/// nothing where it has none.
pub open spec fn extension_text(extension: Option<Seq<char>>) -> Seq<char> {
    match extension {
        Some(e) => e,
        None => Seq::<char>::empty(),
    }
}

/// The entry to create for `subpath`, given its file stem `stem` and its
/// extension `extension` (not read for a folder).
pub fn create_plan_from(subpath: String, stem: String, extension: Option<String>, kind: CreateKind) -> (r: CreatePlan)
    ensures
        r.materialized_path == subpath,
        r.name == stem,
        r.is_dir == (kind == CreateKind::Folder),
        r.assemble_object == (kind == CreateKind::File),
        kind == CreateKind::Folder ==> r.extension is None,
        kind != CreateKind::Folder ==> (r.extension matches Some(e) && e@ == extension_text(opt_text(extension))),
{
    let is_dir = kind == CreateKind::Folder;
    let ext = if is_dir {
        None
    } else {
        match extension {
            Some(e) => Some(e),
            None => Some(String::new()),
        }
    };
    CreatePlan {
        materialized_path: subpath,
        name: stem,
        extension: ext,
        is_dir,
        assemble_object: kind == CreateKind::File,
    }
}

/// The entry to create for the created path `subpath` (relative to the
/// location); `None` where the path has no file stem (such an event is not
/// handled).
pub fn plan_create(subpath: &str, kind: CreateKind) -> (r: Option<CreatePlan>)
    ensures
        create_plan_outcome(subpath@, kind, r),
{
    match file_stem_of(subpath) {
        None => None,
        Some(stem) => {
            let extension = if kind == CreateKind::Folder {
                None
            } else {
                extension_of(subpath)
            };
            Some(create_plan_from(subpath.to_owned(), stem, extension, kind))
        },
    }
}

/// What `plan_create` gives for `subpath` and `kind`: the entry with the
/// path's stem as name and its extension (empty where it has none, none for
/// a folder), or `None` where the path has no file stem.
pub open spec fn create_plan_outcome(subpath: Seq<char>, kind: CreateKind, r: Option<CreatePlan>) -> bool {
    match path_file_stem(subpath) {
        None => r is None,
        Some(stem) => r matches Some(p) && p.materialized_path@ == subpath && p.name@ == stem
            && p.is_dir == (kind == CreateKind::Folder)
            && p.assemble_object == (kind == CreateKind::File)
            && (kind == CreateKind::Folder ==> p.extension is None)
            && (kind != CreateKind::Folder ==> (p.extension matches Some(e)
                && e@ == extension_text(path_extension(subpath)))),
    }
}

/// The step after looking up the parent directory of a created path.
#[derive(Debug, PartialEq, Eq)]
pub enum CreateStep {
    /// The parent directory is not indexed: the event is dropped.
    NoParent,
    /// The entry is created below the directory `parent_id`.
    Create { entry: CreatePlan, parent_id: i32 },
}

/// What follows the lookup of the parent directory (`parent`) of the created
/// path `subpath`: nothing where it is not indexed, else the entry to create
/// below it; `None` where the path has no file stem (such an event is not
/// handled).
pub fn plan_create_step(subpath: &str, kind: CreateKind, parent: &Option<ExistingFilePath>) -> (r: Option<CreateStep>)
    ensures
        match *parent {
            None => r == Some(CreateStep::NoParent),
            Some(p) => match path_file_stem(subpath@) {
                None => r is None,
                Some(_) => r matches Some(CreateStep::Create { entry, parent_id })
                    && parent_id == p.id && create_plan_outcome(subpath@, kind, Some(entry)),
            },
        },
{
    match parent {
        None => Some(CreateStep::NoParent),
        Some(p) => match plan_create(subpath, kind) {
            None => None,
            Some(entry) => Some(CreateStep::Create { entry, parent_id: p.id }),
        },
    }
}

/// The extension to try a thumbnail for, once the new file's object is
/// stored: the file's extension, where the object has no thumbnail yet.
pub fn thumbnail_candidate(has_thumbnail: bool, extension: &Option<String>) -> (r: Option<String>)
    ensures
        has_thumbnail ==> r is None,
        !has_thumbnail ==> r == *extension,
{
    if has_thumbnail {
        None
    } else {
        match extension {
            Some(e) => Some(e.clone()),
            None => None,
        }
    }
}

/// Where the thumbnail of the object `cas_id` is written: the file `cas_id`,
/// with the extension `webp`, in the directory `cache_dir_name` below
/// `data_directory`.
pub fn thumbnail_output_path(data_directory: &str, cache_dir_name: &str, cas_id: &str) -> (r: String)
    ensures
        r@ == path_with_extension(path_join(path_join(data_directory@, cache_dir_name@), cas_id@), "webp"@),
{
    let cache_dir = join_path(data_directory, cache_dir_name);
    let file = join_path(cache_dir.as_str(), cas_id);
    proof {
        reveal_strlit("webp");
    }
    with_extension(file.as_str(), "webp")
}

/// The old and new materialized paths of a renamed entry.
#[derive(Debug, PartialEq, Eq)]
pub struct RenamePaths {
    pub old_path: String,
    pub new_path: String,
}

/// Whether `r` is what a modification event of `kind` on `paths` in
/// `location` leads to: only a rename with both ends known is handled, with
/// the materialized paths of both ends, which must lie inside the location.
pub open spec fn modify_outcome(
    location: LocationRecord,
    paths: Seq<String>,
    kind: ModifyKind,
    r: Result<Option<RenamePaths>, LocationManagerError>,
) -> bool {
    if kind != ModifyKind::Name(RenameMode::Both) {
        r == Ok::<Option<RenamePaths>, LocationManagerError>(None)
    } else {
        match materialized(location, paths[0]@) {
            None => r matches Err(e) && is_extraction_error(location, paths[0]@, e),
            Some(o) => match materialized(location, paths[1]@) {
                None => r matches Err(e) && is_extraction_error(location, paths[1]@, e),
                Some(n) => r matches Ok(Some(rp)) && rp.old_path@ == o && rp.new_path@ == n,
            },
        }
    }
}

/// Whether a modification event of `kind` on `paths` in `location` is one
/// that is not handled: a data or metadata change, or a rename with both ends
/// that does not name them (the second end is read only once the first lies
/// inside the location).
pub open spec fn modify_unhandled(location: LocationRecord, paths: Seq<String>, kind: ModifyKind) -> bool {
    ||| kind is Data
    ||| kind is Metadata
    ||| kind == ModifyKind::Name(RenameMode::Both) && paths.len() == 0
    ||| kind == ModifyKind::Name(RenameMode::Both) && paths.len() == 1 && materialized(location, paths[0]@) is Some
}

/// What a modification event of `kind` on `paths` in `location` leads to
/// (see `modify_outcome`), for the events that are handled.
pub fn plan_modify(location: &LocationRecord, paths: &Vec<String>, kind: ModifyKind) -> (r: Result<Option<RenamePaths>, LocationManagerError>)
    requires
        !modify_unhandled(*location, paths@, kind),
    ensures
        modify_outcome(*location, paths@, kind, r),
{
    match kind {
        ModifyKind::Name(RenameMode::Both) => {
            let old_path = match extract_materialized_path(location, paths[0].as_str()) {
                Ok(p) => p,
                Err(e) => {
                    return Err(e);
                },
            };
            let new_path = match extract_materialized_path(location, paths[1].as_str()) {
                Ok(p) => p,
                Err(e) => {
                    return Err(e);
                },
            };
            Ok(Some(RenamePaths { old_path, new_path }))
        },
        _ => Ok(None),
    }
}

/// What a modification event of `kind` on `paths` in `location` leads to;
/// `None` for an event that is not handled (see `modify_unhandled`).
pub fn plan_modify_event(location: &LocationRecord, paths: &Vec<String>, kind: ModifyKind) -> (r: Option<Result<Option<RenamePaths>, LocationManagerError>>)
    ensures
        modify_unhandled(*location, paths@, kind) ==> r is None,
        !modify_unhandled(*location, paths@, kind) ==> (r matches Some(o) && modify_outcome(*location, paths@, kind, o)),
        kind matches ModifyKind::Name(mode) && mode != RenameMode::Both
            ==> r == Some(Ok::<Option<RenamePaths>, LocationManagerError>(None)),
{
    match kind {
        ModifyKind::Data => None,
        ModifyKind::Metadata => None,
        ModifyKind::Name(RenameMode::Both) => {
            if paths.len() == 0 {
                None
            } else if paths.len() == 1 {
                match extract_materialized_path(location, paths[0].as_str()) {
                    Ok(_) => None,
                    Err(_) => Some(plan_modify(location, paths, kind)),
                }
            } else {
                Some(plan_modify(location, paths, kind))
            }
        },
        _ => Some(plan_modify(location, paths, kind)),
    }
}

/// The new name of a renamed entry.
#[derive(Debug, PartialEq, Eq)]
pub struct EntryRename {
    pub materialized_path: String,
    pub name: String,
}

/// The updates after a rename whose old end is a known entry.
#[derive(Debug, PartialEq, Eq)]
pub struct RenameUpdates {
    /// Whether the materialized paths of the entries below are rewritten
    /// from the old path to the new one (for a directory).
    pub rewrite_descendants: bool,
    /// The entry's new materialized path and name; `None` where the new path
    /// has no file stem (the update goes no further).
    pub entry: Option<EntryRename>,
}

/// The updates after an entry (a directory if `is_dir`) was renamed to the
/// materialized path `new_path`.
pub fn plan_rename_updates(is_dir: bool, new_path: &str) -> (r: RenameUpdates)
    ensures
        r.rewrite_descendants == is_dir,
        match path_file_stem(new_path@) {
            None => r.entry is None,
            Some(stem) => r.entry matches Some(e) && e.materialized_path@ == new_path@ && e.name@ == stem,
        },
{
    let entry = match file_stem_of(new_path) {
        None => None,
        Some(stem) => Some(EntryRename { materialized_path: new_path.to_owned(), name: stem }),
    };
    RenameUpdates { rewrite_descendants: is_dir, entry }
}

/// The updates after a rename, given the indexed entry of its old end
/// (`existing`): none where the old end is not indexed, else those of
/// `plan_rename_updates` for that entry.
pub fn plan_rename_step(existing: &Option<ExistingFilePath>, new_path: &str) -> (r: Option<(i32, RenameUpdates)>)
    ensures
        match *existing {
            None => r is None,
            Some(f) => r matches Some((id, u)) && id == f.id && u.rewrite_descendants == f.is_dir
                && match path_file_stem(new_path@) {
                    None => u.entry is None,
                    Some(stem) => u.entry matches Some(e) && e.materialized_path@ == new_path@ && e.name@ == stem,
                },
        },
{
    match existing {
        None => None,
        Some(f) => Some((f.id, plan_rename_updates(f.is_dir, new_path))),
    }
}

/// What the database knows of an indexed path.
#[derive(Debug, PartialEq, Eq)]
pub struct ExistingFilePath {
    pub id: i32,
    pub is_dir: bool,
    pub materialized_path: String,
    pub object_id: Option<i32>,
}

/// How a removed entry leaves the index.
#[derive(Debug, PartialEq, Eq)]
pub enum RemovePlan {
    /// The directory and everything below it are deleted.
    DeleteDirectory { location_id: LocationId, materialized_path: String },
    /// The entry is deleted, and its object too where it has one.
    DeleteFile { location_id: LocationId, file_path_id: i32, object_id: Option<i32> },
}

/// What a removal event does to the indexed entry `file` of location
/// `location_id`, given what looking its path up on disk found: an entry
/// that is gone from disk leaves the index; a failed lookup is an error. An
/// entry still on disk is not handled.
pub fn plan_remove(location_id: LocationId, file: &ExistingFilePath, probe: &PathProbe) -> (r: Result<RemovePlan, LocationManagerError>)
    requires
        !(probe is Found),
    ensures
        match *probe {
            PathProbe::NotFound => if file.is_dir {
                r == Ok::<RemovePlan, LocationManagerError>(RemovePlan::DeleteDirectory {
                    location_id,
                    materialized_path: file.materialized_path,
                })
            } else {
                r == Ok::<RemovePlan, LocationManagerError>(RemovePlan::DeleteFile {
                    location_id,
                    file_path_id: file.id,
                    object_id: file.object_id,
                })
            },
            PathProbe::Failed(msg) => r == Err::<RemovePlan, LocationManagerError>(LocationManagerError::IOError(msg)),
            PathProbe::Found => false,
        },
{
    match probe {
        PathProbe::Failed(msg) => Err(LocationManagerError::IOError(msg.clone())),
        _ => {
            if file.is_dir {
                Ok(RemovePlan::DeleteDirectory { location_id, materialized_path: file.materialized_path.clone() })
            } else {
                Ok(RemovePlan::DeleteFile { location_id, file_path_id: file.id, object_id: file.object_id })
            }
        },
    }
}

} // verus!
