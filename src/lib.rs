//! Permission-gated access to the device's geographic position.
//!
//! The library holds the decisions of the gateway: how the platform's
//! access status maps to a [`PermissionStatus`], which message each failure
//! of the platform produces, and the ordered pipeline that requests the
//! position only once access has been granted. The platform calls themselves
//! are made by the host, which reports their outcomes back to the pipeline.
pub mod failure;
pub mod permission;
pub mod pipeline;

pub use failure::{PlatformFailure, PlatformStep};
pub use permission::{
    permission_from_access_status, resolve_permission, PermissionStatus, ACCESS_ALLOWED,
    ACCESS_DENIED, ACCESS_UNSPECIFIED,
};
pub use pipeline::{Action, Location, LocationRequest, Stage};
