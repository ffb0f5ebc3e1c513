use vstd::prelude::*;

use crate::location::LocationRecord;

verus! {

/// What looking up a location's local path on disk found.
#[derive(Debug, Clone, PartialEq, Eq)]
pub enum PathProbe {
    /// The path exists.
    Found,
    /// The path does not exist.
    NotFound,
    /// The lookup failed for another reason, described by the message.
    Failed(String),
}

/// Whether a location is online, and the online flag to store for it, if
/// the stored one must change.
#[derive(Debug, Clone, Copy, PartialEq, Eq, Structural)]
pub struct OnlineCheck {
    pub online: bool,
    pub set_online: Option<bool>,
}

/// The flag to store after a check: a found path turns an offline location
/// online, a missing path or no path turns an online location offline, and
/// a failed lookup changes nothing.
pub open spec fn online_flag_update(location: LocationRecord, probe: PathProbe) -> Option<bool> {
    match location.local_path {
        Some(_) => match probe {
            PathProbe::Found => if !location.is_online { Some(true) } else { None },
            PathProbe::NotFound => if location.is_online { Some(false) } else { None },
            PathProbe::Failed(_) => None,
        },
        None => if location.is_online { Some(false) } else { None },
    }
}

/// Decides whether `location` is online from what looking up its local path
/// found (`probe`, not read when the location has no local path).
pub fn check_online(location: &LocationRecord, probe: &PathProbe) -> (r: OnlineCheck)
    ensures
        r.online == (location.local_path is Some && probe is Found),
        r.set_online == online_flag_update(*location, *probe),
{
    match &location.local_path {
        Some(_) => match probe {
            PathProbe::Found => OnlineCheck {
                online: true,
                set_online: if !location.is_online { Some(true) } else { None },
            },
            PathProbe::NotFound => OnlineCheck {
                online: false,
                set_online: if location.is_online { Some(false) } else { None },
            },
            PathProbe::Failed(_) => OnlineCheck { online: false, set_online: None },
        },
        None => OnlineCheck {
            online: false,
            set_online: if location.is_online { Some(false) } else { None },
        },
    }
}

} // verus!
