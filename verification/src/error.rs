use vstd::prelude::*;

verus! {

/// The identifier of a location in the library database.
pub type LocationId = i32;

/// Why a manager operation failed.
#[derive(Debug, Clone, PartialEq, Eq)]
pub enum LocationManagerError {
    /// The manager was started a second time.
    AlreadyInitialized,
    /// The manager task is gone; the location could not be handed to it for checking.
    ActorSendAddLocationError(LocationId),
    /// The manager task is gone; the location could not be handed to it for removal.
    ActorSendRemoveLocationError(LocationId),
    /// The file system watcher failed; the message describes why.
    WatcherError(String),
    /// The location has no local path.
    LocationMissingLocalPath(LocationId),
    /// The path does not lie inside the location.
    UnableToExtractMaterializedPath(LocationId, String),
    /// A database query failed; the message describes why.
    DatabaseError(String),
    /// A file system operation failed; the message describes why.
    IOError(String),
}

/// The manager can be started once: a second start is refused.
pub fn ensure_uninitialized(already_initialized: bool) -> (r: Result<(), LocationManagerError>)
    ensures
        already_initialized ==> r == Err::<(), LocationManagerError>(
            LocationManagerError::AlreadyInitialized,
        ),
        !already_initialized ==> r is Ok,
{
    if already_initialized {
        Err(LocationManagerError::AlreadyInitialized)
    } else {
        Ok(())
    }
}

} // verus!
