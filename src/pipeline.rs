//! The ordered retrieval of the device's position: permission first, then
//! the position request, and only when access has been granted.
//!
//! The host runs the pipeline. It performs each [`Action`] that the pipeline
//! hands out and reports the outcome back; the pipeline decides what comes
//! next.
use vstd::prelude::*;

use crate::failure::{access_denied_error, access_denied_message, failure_message, PlatformFailure};
use crate::permission::{resolve_permission, spec_permission_result, PermissionStatus};

verus! {

/// A position on the globe as the platform reports it: latitude and longitude
/// in degrees, each held as the bit pattern of an IEEE-754 double so that it
/// is passed on exactly as received.
#[derive(PartialEq, Eq, Structural, Clone, Copy, Debug)]
pub struct Location {
    pub latitude_bits: u64,
    pub longitude_bits: u64,
}

/// How far one retrieval has progressed.
#[derive(PartialEq, Eq, Structural, Clone, Copy, Debug)]
pub enum Stage {
    /// Nothing has been asked of the platform yet.
    NotRequested,
    /// Access has been requested; its outcome is awaited.
    PermissionRequested,
    /// Access was granted and the position has been requested.
    PositionRequested,
    /// The retrieval has its result; nothing more is asked of the platform.
    Done,
}

/// What the host must do next for a retrieval.
#[derive(Debug)]
pub enum Action {
    /// Ask the platform for location access and report its status.
    RequestAccess,
    /// Create a location handle, set it to high accuracy, request the
    /// position and report it.
    FetchPosition,
    /// Hand this result to the caller; the retrieval is over.
    Finish(Result<Location, String>),
}

/// True when `a` ends the retrieval with an error whose message is `msg`.
pub open spec fn finishes_with_error(a: Action, msg: Seq<char>) -> bool {
    a matches Action::Finish(Err(e)) && e@ == msg
}

/// One retrieval of the device's position, from the permission request to
/// its result.
pub struct LocationRequest {
    stage: Stage,
}

impl View for LocationRequest {
    type V = Stage;

    closed spec fn view(&self) -> Stage {
        self.stage
    }
}

impl LocationRequest {
    /// A retrieval that has not asked anything of the platform yet.
    pub fn new() -> (r: Self)
        ensures
            r@ == Stage::NotRequested,
    {
        LocationRequest { stage: Stage::NotRequested }
    }

    /// The stage that the retrieval has reached.
    pub fn stage(&self) -> (r: Stage)
        ensures
            r == self@,
    {
        self.stage
    }

    /// Starts the retrieval: location access is always requested first.
    pub fn begin(&mut self) -> (a: Action)
        requires
            old(self)@ == Stage::NotRequested,
        ensures
            a is RequestAccess,
            final(self)@ == Stage::PermissionRequested,
    {
        self.stage = Stage::PermissionRequested;
        Action::RequestAccess
    }

    /// Takes the outcome of the access request. The position is requested
    /// only when access was granted; any other permission ends the retrieval
    /// with the access-denied message, and a failed request ends it with
    /// that failure's message.
    pub fn on_access(&mut self, report: Result<i32, PlatformFailure>) -> (a: Action)
        requires
            old(self)@ == Stage::PermissionRequested,
        ensures
            (a is FetchPosition) <==> spec_permission_result(report) == Ok::<
                PermissionStatus,
                Seq<char>,
            >(PermissionStatus::Allowed),
            a is FetchPosition ==> final(self)@ == Stage::PositionRequested,
            !(a is FetchPosition) ==> final(self)@ == Stage::Done,
            spec_permission_result(report) matches Ok(p) && p != PermissionStatus::Allowed
                ==> finishes_with_error(a, access_denied_message()),
            spec_permission_result(report) matches Err(msg) ==> finishes_with_error(a, msg),
    {
        match resolve_permission(report) {
            Ok(PermissionStatus::Allowed) => {
                self.stage = Stage::PositionRequested;
                Action::FetchPosition
            },
            Ok(_) => {
                self.stage = Stage::Done;
                Action::Finish(Err(access_denied_error()))
            },
            Err(e) => {
                self.stage = Stage::Done;
                Action::Finish(Err(e))
            },
        }
    }

    /// Takes the outcome of the position request and ends the retrieval: the
    /// platform's coordinates are passed on unchanged, and a failed call is
    /// reported with its message.
    pub fn on_position(&mut self, report: Result<Location, PlatformFailure>) -> (a: Action)
        requires
            old(self)@ == Stage::PositionRequested,
        ensures
            final(self)@ == Stage::Done,
            report matches Ok(loc) ==> a == Action::Finish(Ok(loc)),
            report matches Err(f) ==> finishes_with_error(a, failure_message(f.step, f.detail@)),
    {
        self.stage = Stage::Done;
        match report {
            Ok(loc) => Action::Finish(Ok(loc)),
            Err(f) => Action::Finish(Err(f.message())),
        }
    }
}

} // verus!
