//! Privacy permissions owned by the background agent process.

use crate::ipc::PermissionStatus;
use vstd::prelude::*;

verus! {

/// The system's answer for a granted permission.
pub const ACCESS_GRANTED: u32 = 0;

/// The system's answer for a denied permission.
pub const ACCESS_DENIED: u32 = 1;

/// What the system's answer means; anything undocumented is unresolved.
pub open spec fn access_meaning(access: u32) -> PermissionStatus {
    if access == ACCESS_GRANTED {
        PermissionStatus::Granted
    } else if access == ACCESS_DENIED {
        PermissionStatus::Denied
    } else {
        PermissionStatus::Unknown
    }
}

/// Classify the system's answer to an Input Monitoring query.
#[must_use]
pub fn classify_input_monitoring(access: u32) -> (status: PermissionStatus)
    ensures
        status == access_meaning(access),
{
    if access == ACCESS_GRANTED {
        PermissionStatus::Granted
    } else if access == ACCESS_DENIED {
        PermissionStatus::Denied
    } else {
        PermissionStatus::Unknown
    }
}

/// Whether this agent process may listen to HID devices. `access` is the system's
/// answer, or `None` on systems that do not guard it.
#[must_use]
pub fn input_monitoring(access: Option<u32>) -> (status: PermissionStatus)
    ensures
        status == match access {
            Some(access) => access_meaning(access),
            None => PermissionStatus::Granted,
        },
{
    match access {
        Some(access) => classify_input_monitoring(access),
        None => PermissionStatus::Granted,
    }
}

/// Whether the agent asks the system to prompt for Input Monitoring: only where
/// the system guards it and has not granted it.
#[must_use]
pub fn request_input_monitoring(access: Option<u32>) -> (request: bool)
    ensures
        request == (access matches Some(access) && access != ACCESS_GRANTED),
{
    match access {
        Some(access) => access != ACCESS_GRANTED,
        None => false,
    }
}

/// What the system's answer means: zero grants, one denies, and anything else is not
/// known.
pub proof fn law_access_is_read(access: u32)
    ensures
        access == 0 <==> access_meaning(access) is Granted,
        access == 1 <==> access_meaning(access) is Denied,
        access > 1 <==> access_meaning(access) is Unknown,
{
}

} // verus!
