//! Platform failures and the messages that the gateway reports for them.
use vstd::prelude::*;

use crate::permission::unknown_status_message;

verus! {

/// Each call to the platform that can fail on its own.
#[derive(PartialEq, Eq, Structural, Clone, Copy, Debug)]
pub enum PlatformStep {
    /// The access request could not be issued.
    RequestAccess,
    /// The access request was issued but its completion failed.
    AwaitAccess,
    /// The location-service handle could not be constructed.
    CreateLocator,
    /// The handle refused the high-accuracy setting.
    SetAccuracy,
    /// The position request could not be issued.
    RequestPosition,
    /// The position request was issued but its completion failed.
    AwaitPosition,
    /// The coordinate could not be read from the position.
    ReadCoordinate,
    /// The geographic point could not be read from the coordinate.
    ReadPoint,
    /// The latitude/longitude pair could not be read from the point.
    ReadPosition,
}

/// A failed platform call: which call failed, and the platform's own
/// description of the error.
pub struct PlatformFailure {
    pub step: PlatformStep,
    pub detail: String,
}

/// Message returned when location access has not been granted.
pub open spec fn access_denied_message() -> Seq<char> {
    "Location access denied"@
}

/// The text that opens the message for a failure of `step`.
pub open spec fn step_prefix(step: PlatformStep) -> Seq<char> {
    match step {
        PlatformStep::RequestAccess => "Failed to request access: "@,
        PlatformStep::AwaitAccess => "Error while requesting access: "@,
        PlatformStep::CreateLocator => "Failed to create Geolocator: "@,
        PlatformStep::SetAccuracy => "Failed to set accuracy: "@,
        PlatformStep::RequestPosition => "Failed to get location: "@,
        PlatformStep::AwaitPosition => "Error while waiting for location: "@,
        PlatformStep::ReadCoordinate => "Failed to get coordinates: "@,
        PlatformStep::ReadPoint => "Failed to get Geopoint: "@,
        PlatformStep::ReadPosition => "Failed to get position: "@,
    }
}

/// The message reported for a failure of `step` whose platform error reads
/// `detail`.
pub open spec fn failure_message(step: PlatformStep, detail: Seq<char>) -> Seq<char> {
    step_prefix(step) + detail
}

fn prefix_of(step: PlatformStep) -> (r: &'static str)
    ensures
        r@ == step_prefix(step),
{
    match step {
        PlatformStep::RequestAccess => "Failed to request access: ",
        PlatformStep::AwaitAccess => "Error while requesting access: ",
        PlatformStep::CreateLocator => "Failed to create Geolocator: ",
        PlatformStep::SetAccuracy => "Failed to set accuracy: ",
        PlatformStep::RequestPosition => "Failed to get location: ",
        PlatformStep::AwaitPosition => "Error while waiting for location: ",
        PlatformStep::ReadCoordinate => "Failed to get coordinates: ",
        PlatformStep::ReadPoint => "Failed to get Geopoint: ",
        PlatformStep::ReadPosition => "Failed to get position: ",
    }
}

impl PlatformFailure {
    /// The caller-facing message for this failure: the step's prefix followed
    /// by the platform's description.
    pub fn message(&self) -> (r: String)
        ensures
            r@ == failure_message(self.step, self.detail@),
    {
        let mut m = String::from_str(prefix_of(self.step));
        m.append(self.detail.as_str());
        m
    }
}

/// Builds the message reported when location access has not been granted.
pub fn access_denied_error() -> (r: String)
    ensures
        r@ == access_denied_message(),
{
    String::from_str("Location access denied")
}

/// Every failure message is non-empty, whatever the platform's description,
/// and differs from the messages of a refused permission and of an unknown
/// access status.
pub proof fn lemma_failure_message_nonempty(step: PlatformStep, detail: Seq<char>)
    ensures
        failure_message(step, detail).len() > 0,
        failure_message(step, detail) != access_denied_message(),
        failure_message(step, detail) != unknown_status_message(),
{
    reveal_strlit("Failed to request access: ");
    reveal_strlit("Error while requesting access: ");
    reveal_strlit("Failed to create Geolocator: ");
    reveal_strlit("Failed to set accuracy: ");
    reveal_strlit("Failed to get location: ");
    reveal_strlit("Error while waiting for location: ");
    reveal_strlit("Failed to get coordinates: ");
    reveal_strlit("Failed to get Geopoint: ");
    reveal_strlit("Failed to get position: ");
    reveal_strlit("Location access denied");
    reveal_strlit("Unknown access status");
    let m = failure_message(step, detail);
    assert(m[0] == step_prefix(step)[0]);
    assert(m[0] != access_denied_message()[0]);
    assert(m[0] != unknown_status_message()[0]);
}

/// The messages of a refused permission and of an unknown access status are
/// non-empty and differ.
pub proof fn lemma_decision_messages_distinct()
    ensures
        access_denied_message().len() > 0,
        unknown_status_message().len() > 0,
        access_denied_message() != unknown_status_message(),
{
    reveal_strlit("Location access denied");
    reveal_strlit("Unknown access status");
    assert(access_denied_message()[0] != unknown_status_message()[0]);
}

/// Failures of two different platform calls never produce the same message,
/// whatever the platform's descriptions of the two errors.
pub proof fn lemma_failure_messages_distinct(
    s1: PlatformStep,
    d1: Seq<char>,
    s2: PlatformStep,
    d2: Seq<char>,
)
    requires
        s1 != s2,
    ensures
        failure_message(s1, d1) != failure_message(s2, d2),
{
    reveal_strlit("Failed to request access: ");
    reveal_strlit("Error while requesting access: ");
    reveal_strlit("Failed to create Geolocator: ");
    reveal_strlit("Failed to set accuracy: ");
    reveal_strlit("Failed to get location: ");
    reveal_strlit("Error while waiting for location: ");
    reveal_strlit("Failed to get coordinates: ");
    reveal_strlit("Failed to get Geopoint: ");
    reveal_strlit("Failed to get position: ");
    let m1 = failure_message(s1, d1);
    let m2 = failure_message(s2, d2);
    assert(m1[0] == step_prefix(s1)[0] && m2[0] == step_prefix(s2)[0]);
    assert(m1[10] == step_prefix(s1)[10] && m2[10] == step_prefix(s2)[10]);
    assert(m1[12] == step_prefix(s1)[12] && m2[12] == step_prefix(s2)[12]);
    assert(m1[14] == step_prefix(s1)[14] && m2[14] == step_prefix(s2)[14]);
    assert(m1[0] != m2[0] || m1[10] != m2[10] || m1[12] != m2[12] || m1[14] != m2[14]);
}

} // verus!
