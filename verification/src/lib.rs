//! Bookkeeping and decisions of a location manager: which locations are
//! watched for file system events, when a location is checked again, and how
//! file system events are turned into index updates.

pub mod error;
pub mod events;
pub mod laws;
pub mod location;
pub mod manager;
pub mod online;
pub mod paths;
