use vstd::prelude::*;

use crate::error::{LocationId, LocationManagerError};
use crate::location::LocationRecord;

verus! {

/// The text of the path that `std::path::Path::strip_prefix` leaves of `path`
/// once `base` is taken off its front, whole components at a time; `None`
/// where `base` is not a prefix of `path`.
pub uninterp spec fn path_strip_prefix(path: Seq<char>, base: Seq<char>) -> Option<Seq<char>>;

/// The text of what `std::path::Path::parent` returns for `path`.
pub uninterp spec fn path_parent(path: Seq<char>) -> Option<Seq<char>>;

/// The text of what `std::path::Path::file_stem` returns for `path`.
pub uninterp spec fn path_file_stem(path: Seq<char>) -> Option<Seq<char>>;

/// The text of what `std::path::Path::extension` returns for `path`.
pub uninterp spec fn path_extension(path: Seq<char>) -> Option<Seq<char>>;

/// The text of what `std::path::Path::join` returns for `base` and `tail`.
pub uninterp spec fn path_join(base: Seq<char>, tail: Seq<char>) -> Seq<char>;

/// The text of what `std::path::Path::with_extension` returns for `path` and
/// `extension`.
pub uninterp spec fn path_with_extension(path: Seq<char>, extension: Seq<char>) -> Seq<char>;

/// Whether `std::path::Path`'s `==` holds of the two paths (it compares them
/// component by component).
pub uninterp spec fn path_eq(a: Seq<char>, b: Seq<char>) -> bool;

/// The text of an optional string.
pub open spec fn opt_text(o: Option<String>) -> Option<Seq<char>> {
    match o {
        Some(s) => Some(s@),
        None => None,
    }
}

/// Calls `std::path::Path::strip_prefix(path, base)`; the contract claims only
/// that the result, as text, is the one named by `path_strip_prefix`.
#[verifier::external_body]
fn strip_path_prefix(path: &str, base: &str) -> (r: Option<String>)
    ensures
        opt_text(r) == path_strip_prefix(path@, base@),
{
    match std::path::Path::new(path).strip_prefix(base) {
        Ok(rest) => Some(rest.to_string_lossy().into_owned()),
        Err(_) => None,
    }
}

/// Calls `std::path::Path::parent`; the contract claims only that the result,
/// as text, is the one named by `path_parent`.
#[verifier::external_body]
pub(crate) fn parent_of(path: &str) -> (r: Option<String>)
    ensures
        opt_text(r) == path_parent(path@),
{
    match std::path::Path::new(path).parent() {
        Some(p) => Some(p.to_string_lossy().into_owned()),
        None => None,
    }
}

/// Calls `std::path::Path::file_stem`; the contract claims only that the
/// result, as text, is the one named by `path_file_stem`.
#[verifier::external_body]
pub(crate) fn file_stem_of(path: &str) -> (r: Option<String>)
    ensures
        opt_text(r) == path_file_stem(path@),
{
    match std::path::Path::new(path).file_stem() {
        Some(s) => Some(s.to_string_lossy().into_owned()),
        None => None,
    }
}

/// Calls `std::path::Path::extension`; the contract claims only that the
/// result, as text, is the one named by `path_extension`.
#[verifier::external_body]
pub(crate) fn extension_of(path: &str) -> (r: Option<String>)
    ensures
        opt_text(r) == path_extension(path@),
{
    match std::path::Path::new(path).extension() {
        Some(s) => Some(s.to_string_lossy().into_owned()),
        None => None,
    }
}

/// Calls `std::path::Path::join(base, tail)`; the contract claims only that
/// the result, as text, is the one named by `path_join`.
#[verifier::external_body]
pub(crate) fn join_path(base: &str, tail: &str) -> (r: String)
    ensures
        r@ == path_join(base@, tail@),
{
    std::path::Path::new(base).join(tail).to_string_lossy().into_owned()
}

/// Whether `text` holds no path separator.
pub open spec fn has_no_separator(text: Seq<char>) -> bool {
    forall|i: int| 0 <= i < text.len() ==> text[i] != '/' && text[i] != '\\'
}

/// Calls `std::path::Path::with_extension(path, extension)`, which panics on
/// an extension that holds a path separator (hence the `requires`); the
/// contract claims only that the result, as text, is the one named by
/// `path_with_extension`.
#[verifier::external_body]
pub(crate) fn with_extension(path: &str, extension: &str) -> (r: String)
    requires
        has_no_separator(extension@),
    ensures
        r@ == path_with_extension(path@, extension@),
{
    std::path::Path::new(path).with_extension(extension).to_string_lossy().into_owned()
}

/// Calls `==` on two `std::path::Path`s; the contract claims that the answer
/// is the one named by `path_eq`, and that the same text is the same path
/// (`Path` is `Eq`, so `==` is reflexive).
#[verifier::external_body]
pub(crate) fn same_path(a: &str, b: &str) -> (r: bool)
    ensures
        r == path_eq(a@, b@),
        a@ == b@ ==> r,
{
    std::path::Path::new(a) == std::path::Path::new(b)
}

/// The part of `current_path` below `location_path`, or `None` where
/// `current_path` does not lie inside `location_path`.
pub fn subtract_location_path(location_path: &str, current_path: &str) -> (r: Option<String>)
    ensures
        opt_text(r) == path_strip_prefix(current_path@, location_path@),
{
    strip_path_prefix(current_path, location_path)
}

/// The materialized path of `path` in the location `location_id`, given what
/// taking the location's path off `path` left (`stripped`).
pub fn materialized_path_from(location_id: LocationId, path: &str, stripped: Option<String>) -> (r:
    Result<String, LocationManagerError>)
    ensures
        match stripped {
            Some(s) => r == Ok::<String, LocationManagerError>(s),
            None => r matches Err(LocationManagerError::UnableToExtractMaterializedPath(id, p))
                && id == location_id && p@ == path@,
        },
{
    match stripped {
        Some(s) => Ok(s),
        None => Err(LocationManagerError::UnableToExtractMaterializedPath(location_id, path.to_owned())),
    }
}

/// The materialized path of `path` in `location`: `path` with the location's
/// local path taken off its front, if the location has one and `path` lies
/// inside it.
pub open spec fn materialized(location: LocationRecord, path: Seq<char>) -> Option<Seq<char>> {
    match location.local_path {
        None => None,
        Some(lp) => path_strip_prefix(path, lp@),
    }
}

/// The error that extracting the materialized path of `path` in `location`
/// fails with.
pub open spec fn is_extraction_error(location: LocationRecord, path: Seq<char>, e: LocationManagerError) -> bool {
    match location.local_path {
        None => e == LocationManagerError::LocationMissingLocalPath(location.id),
        Some(_) => e matches LocationManagerError::UnableToExtractMaterializedPath(id, p)
            && id == location.id && p@ == path,
    }
}

/// The path of `path` relative to the root of `location`: an error where the
/// location has no local path or `path` does not lie inside it.
pub fn extract_materialized_path(location: &LocationRecord, path: &str) -> (r: Result<String, LocationManagerError>)
    ensures
        match materialized(*location, path@) {
            Some(m) => r matches Ok(s) && s@ == m,
            None => r matches Err(e) && is_extraction_error(*location, path@, e),
        },
{
    match &location.local_path {
        None => Err(LocationManagerError::LocationMissingLocalPath(location.id)),
        Some(lp) => {
            let stripped = subtract_location_path(lp.as_str(), path);
            materialized_path_from(location.id, path, stripped)
        },
    }
}

} // verus!
