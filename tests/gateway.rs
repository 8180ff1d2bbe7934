use location_gateway::{
    permission_from_access_status, resolve_permission, Action, Location, LocationRequest,
    PermissionStatus, PlatformFailure, PlatformStep, Stage, ACCESS_ALLOWED, ACCESS_DENIED,
    ACCESS_UNSPECIFIED,
};

fn failure(step: PlatformStep, detail: &str) -> PlatformFailure {
    PlatformFailure { step, detail: detail.to_string() }
}

fn location(latitude: f64, longitude: f64) -> Location {
    Location { latitude_bits: latitude.to_bits(), longitude_bits: longitude.to_bits() }
}

/// Drives one retrieval with the given platform outcomes, counting the
/// platform calls that the pipeline asks for.
fn run(
    access: Result<i32, PlatformFailure>,
    position: Result<Location, PlatformFailure>,
) -> (Result<Location, String>, usize, usize) {
    let mut request = LocationRequest::new();
    let mut access_calls = 0;
    let mut position_calls = 0;
    let mut access = Some(access);
    let mut position = Some(position);
    let mut action = request.begin();
    loop {
        action = match action {
            Action::RequestAccess => {
                access_calls += 1;
                request.on_access(access.take().unwrap())
            }
            Action::FetchPosition => {
                position_calls += 1;
                request.on_position(position.take().unwrap())
            }
            Action::Finish(result) => {
                assert_eq!(request.stage(), Stage::Done);
                return (result, access_calls, position_calls);
            }
        };
    }
}

#[test]
fn known_statuses_map_one_to_one() {
    assert_eq!(permission_from_access_status(ACCESS_ALLOWED), Ok(PermissionStatus::Allowed));
    assert_eq!(permission_from_access_status(ACCESS_DENIED), Ok(PermissionStatus::Denied));
    assert_eq!(
        permission_from_access_status(ACCESS_UNSPECIFIED),
        Ok(PermissionStatus::Unspecified)
    );
    assert_eq!(permission_from_access_status(0), Ok(PermissionStatus::Unspecified));
    assert_eq!(permission_from_access_status(1), Ok(PermissionStatus::Allowed));
    assert_eq!(permission_from_access_status(2), Ok(PermissionStatus::Denied));
}

#[test]
fn unknown_status_is_an_error() {
    for status in [3, -1, 42, i32::MIN, i32::MAX] {
        assert_eq!(
            permission_from_access_status(status),
            Err("Unknown access status".to_string())
        );
    }
}

#[test]
fn failed_access_request_reports_its_step() {
    assert_eq!(
        resolve_permission(Err(failure(PlatformStep::RequestAccess, "E_FAIL"))),
        Err("Failed to request access: E_FAIL".to_string())
    );
    assert_eq!(
        resolve_permission(Err(failure(PlatformStep::AwaitAccess, "timeout"))),
        Err("Error while requesting access: timeout".to_string())
    );
    assert_eq!(resolve_permission(Ok(ACCESS_DENIED)), Ok(PermissionStatus::Denied));
}

#[test]
fn granted_access_returns_platform_coordinates() {
    let (result, access_calls, position_calls) =
        run(Ok(ACCESS_ALLOWED), Ok(location(37.7749, -122.4194)));
    let loc = result.unwrap();
    assert_eq!(f64::from_bits(loc.latitude_bits), 37.7749);
    assert_eq!(f64::from_bits(loc.longitude_bits), -122.4194);
    assert_eq!((access_calls, position_calls), (1, 1));
}

#[test]
fn coordinates_pass_through_bit_for_bit() {
    for (lat, lon) in [(0.0, -0.0), (90.0, 180.0), (-89.999999, 1e-300), (f64::NAN, 12.5)] {
        let given = location(lat, lon);
        let (result, _, _) = run(Ok(ACCESS_ALLOWED), Ok(given));
        assert_eq!(result, Ok(given));
    }
}

#[test]
fn denied_access_never_requests_position() {
    let (result, access_calls, position_calls) =
        run(Ok(ACCESS_DENIED), Ok(location(1.0, 2.0)));
    assert_eq!(result, Err("Location access denied".to_string()));
    assert_eq!(access_calls, 1);
    assert_eq!(position_calls, 0);
}

#[test]
fn unspecified_access_never_requests_position() {
    let (result, access_calls, position_calls) =
        run(Ok(ACCESS_UNSPECIFIED), Ok(location(1.0, 2.0)));
    assert_eq!(result, Err("Location access denied".to_string()));
    assert_eq!((access_calls, position_calls), (1, 0));
}

#[test]
fn unknown_status_ends_retrieval_with_error() {
    let (result, access_calls, position_calls) = run(Ok(9), Ok(location(1.0, 2.0)));
    assert_eq!(result, Err("Unknown access status".to_string()));
    assert_eq!((access_calls, position_calls), (1, 0));
}

#[test]
fn access_failures_end_retrieval_with_their_message() {
    let (result, _, position_calls) =
        run(Err(failure(PlatformStep::AwaitAccess, "busy")), Ok(location(1.0, 2.0)));
    assert_eq!(result, Err("Error while requesting access: busy".to_string()));
    assert_eq!(position_calls, 0);
}

#[test]
fn each_failure_point_has_its_own_message() {
    let steps = [
        (PlatformStep::CreateLocator, "Failed to create Geolocator: x"),
        (PlatformStep::SetAccuracy, "Failed to set accuracy: x"),
        (PlatformStep::RequestPosition, "Failed to get location: x"),
        (PlatformStep::AwaitPosition, "Error while waiting for location: x"),
        (PlatformStep::ReadCoordinate, "Failed to get coordinates: x"),
        (PlatformStep::ReadPoint, "Failed to get Geopoint: x"),
        (PlatformStep::ReadPosition, "Failed to get position: x"),
    ];
    let mut seen = vec!["Location access denied".to_string()];
    for (step, expected) in steps {
        let (result, access_calls, position_calls) = run(Ok(ACCESS_ALLOWED), Err(failure(step, "x")));
        let message = result.unwrap_err();
        assert_eq!(message, expected);
        assert!(!message.is_empty());
        assert!(!seen.contains(&message));
        seen.push(message);
        assert_eq!((access_calls, position_calls), (1, 1));
    }
    assert_eq!(seen.len(), 8);
}

#[test]
fn failure_message_keeps_platform_detail() {
    let f = failure(PlatformStep::ReadPoint, "HRESULT(0x80004005)");
    assert_eq!(f.message(), "Failed to get Geopoint: HRESULT(0x80004005)");
    let empty = failure(PlatformStep::SetAccuracy, "");
    assert_eq!(empty.message(), "Failed to set accuracy: ");
}

#[test]
fn stages_advance_in_order() {
    let mut request = LocationRequest::new();
    assert_eq!(request.stage(), Stage::NotRequested);
    assert!(matches!(request.begin(), Action::RequestAccess));
    assert_eq!(request.stage(), Stage::PermissionRequested);
    assert!(matches!(request.on_access(Ok(ACCESS_ALLOWED)), Action::FetchPosition));
    assert_eq!(request.stage(), Stage::PositionRequested);
    let loc = location(-33.8688, 151.2093);
    assert!(matches!(request.on_position(Ok(loc)), Action::Finish(Ok(l)) if l == loc));
    assert_eq!(request.stage(), Stage::Done);
}
