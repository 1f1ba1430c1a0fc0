//! Why a lookup can fail.

use vstd::prelude::*;

verus! {

/// The error number that the operating system reports for a failed call.
pub type OsErrorCode = i32;

/// Why a lookup produced no answer.
#[derive(Clone, Copy, Debug, PartialEq, Eq, Structural)]
pub enum ResolveError {
    /// The neighbor table of this platform cannot be queried.
    UnsupportedPlatform,
    /// The address is not an IPv4 address; only the IPv4 neighbor table is queried.
    UnsupportedAddressFamily,
    /// The interface name does not fit in the record's device-name field.
    InterfaceNameTooLong,
    /// The device-control call failed with this error number.
    OsCallFailed(OsErrorCode),
}

} // verus!
