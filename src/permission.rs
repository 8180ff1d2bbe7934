//! The permission decision and its mapping from the platform's access status.
use vstd::prelude::*;

use crate::failure::{failure_message, PlatformFailure};

verus! {

/// Raw platform access status meaning that no decision has been recorded.
pub const ACCESS_UNSPECIFIED: i32 = 0;

/// Raw platform access status meaning that location access is granted.
pub const ACCESS_ALLOWED: i32 = 1;

/// Raw platform access status meaning that location access is refused.
pub const ACCESS_DENIED: i32 = 2;

/// The operating system's recorded decision on location access.
#[derive(PartialEq, Eq, Structural, Clone, Copy, Debug)]
pub enum PermissionStatus {
    Allowed,
    Denied,
    Unspecified,
}

/// Message returned when the platform reports an access status outside the
/// three known ones.
pub open spec fn unknown_status_message() -> Seq<char> {
    "Unknown access status"@
}

/// The permission that a raw access status stands for, if it is a known one.
pub open spec fn spec_permission_of(status: i32) -> Option<PermissionStatus> {
    if status == ACCESS_ALLOWED {
        Some(PermissionStatus::Allowed)
    } else if status == ACCESS_DENIED {
        Some(PermissionStatus::Denied)
    } else if status == ACCESS_UNSPECIFIED {
        Some(PermissionStatus::Unspecified)
    } else {
        None
    }
}

/// Maps the platform's raw access status one to one onto a
/// [`PermissionStatus`]; any other value is an error, never a default.
pub fn permission_from_access_status(status: i32) -> (r: Result<PermissionStatus, String>)
    ensures
        spec_permission_of(status) matches Some(p) ==> r == Ok::<PermissionStatus, String>(p),
        spec_permission_of(status) is None ==> (r matches Err(e) && e@ == unknown_status_message()),
{
    if status == ACCESS_ALLOWED {
        Ok(PermissionStatus::Allowed)
    } else if status == ACCESS_DENIED {
        Ok(PermissionStatus::Denied)
    } else if status == ACCESS_UNSPECIFIED {
        Ok(PermissionStatus::Unspecified)
    } else {
        Err(String::from_str("Unknown access status"))
    }
}

/// What a completed access request comes to: the permission, or the message
/// of the error that stopped it.
pub open spec fn spec_permission_result(report: Result<i32, PlatformFailure>) -> Result<
    PermissionStatus,
    Seq<char>,
> {
    match report {
        Err(f) => Err(failure_message(f.step, f.detail@)),
        Ok(status) => match spec_permission_of(status) {
            Some(p) => Ok(p),
            None => Err(unknown_status_message()),
        },
    }
}

/// Turns the outcome of the platform's access request into the permission
/// decision: a failed call is reported with its message, a known status is
/// mapped, and an unknown status is an error.
pub fn resolve_permission(report: Result<i32, PlatformFailure>) -> (r: Result<PermissionStatus, String>)
    ensures
        r matches Ok(p) ==> spec_permission_result(report) == Ok::<PermissionStatus, Seq<char>>(p),
        r matches Err(e) ==> spec_permission_result(report) == Err::<PermissionStatus, Seq<char>>(e@),
{
    match report {
        Err(f) => Err(f.message()),
        Ok(status) => permission_from_access_status(status),
    }
}

} // verus!
