//! The lookup: decide whether a query can be made, make it through the
//! caller's device-control callback, and decode the answer.

use vstd::prelude::*;
use crate::error::{OsErrorCode, ResolveError};
use crate::hardware::HardwareAddress;
use crate::record::{ArpRequest, ArpRequestView, DEVICE_NAME_CAPACITY, SIOCGARP};

verus! {

/// The operating system that the program was built for.
#[derive(Clone, Copy, Debug, PartialEq, Eq, Structural)]
pub enum Platform {
    /// Linux, whose record layout and operation code this library speaks.
    Linux,
    /// Any other system.
    Other,
}

impl Platform {
    /// Whether the neighbor table of this platform can be queried.
    pub open spec fn spec_is_supported(self) -> bool {
        self is Linux
    }

    /// Whether the neighbor table of this platform can be queried.
    #[verifier::when_used_as_spec(spec_is_supported)]
    pub fn is_supported(self) -> (supported: bool)
        ensures
            supported == self.spec_is_supported(),
    {
        match self {
            Platform::Linux => true,
            Platform::Other => false,
        }
    }
}

/// A network-layer address, by its bytes in network order.
#[derive(Clone, Copy, Debug, PartialEq, Eq)]
pub enum IpAddress {
    V4([u8; 4]),
    V6([u8; 16]),
}

/// What a device-control call hands back: the record as the kernel left it, or
/// the error number of the failed call.
pub type DeviceReply = Result<ArpRequest, OsErrorCode>;

/// What a lookup hands back: the hardware address of a complete entry, `None`
/// for an entry that is not complete, or the reason for the failure.
pub type Resolution = Result<Option<HardwareAddress>, ResolveError>;

/// The record to submit for a lookup of `addr` on the interface `dev`, or the
/// reason why nothing is submitted. The platform is judged first, then the
/// address family, then the length of the interface name.
pub open spec fn planned_query(platform: Platform, addr: IpAddress, dev: Seq<u8>) -> Result<
    ArpRequestView,
    ResolveError,
> {
    if !platform.is_supported() {
        Err(ResolveError::UnsupportedPlatform)
    } else {
        match addr {
            IpAddress::V6(_) => Err(ResolveError::UnsupportedAddressFamily),
            IpAddress::V4(octets) => if dev.len() > DEVICE_NAME_CAPACITY {
                Err(ResolveError::InterfaceNameTooLong)
            } else {
                Ok(ArpRequestView::query(octets@, dev))
            },
        }
    }
}

/// What a reply means: a failed call is an error with the call's error number;
/// a record that came back carries a hardware address exactly if its entry is
/// complete.
pub open spec fn answer(reply: DeviceReply) -> Result<Option<Seq<u8>>, ResolveError> {
    match reply {
        Ok(record) => Ok(record@.resolved()),
        Err(code) => Err(ResolveError::OsCallFailed(code)),
    }
}

/// A lookup's result with the hardware address as its bytes.
pub open spec fn resolution_view(resolution: Resolution) -> Result<Option<Seq<u8>>, ResolveError> {
    match resolution {
        Ok(Some(address)) => Ok(Some(address@)),
        Ok(None) => Ok(None),
        Err(error) => Err(error),
    }
}

/// Decides whether a lookup of `addr` on the interface `dev` can be made and
/// builds its record. An error here means that no device-control call is to be
/// made at all.
pub fn prepare_query(platform: Platform, addr: IpAddress, dev: &[u8]) -> (prepared: Result<
    ArpRequest,
    ResolveError,
>)
    ensures
        planned_query(platform, addr, dev@) matches Ok(query) ==> (prepared matches Ok(record)
            && record@ == query),
        planned_query(platform, addr, dev@) matches Err(error) ==> prepared == Err::<
            ArpRequest,
            ResolveError,
        >(error),
{
    if !platform.is_supported() {
        return Err(ResolveError::UnsupportedPlatform);
    }
    match addr {
        IpAddress::V6(_) => Err(ResolveError::UnsupportedAddressFamily),
        IpAddress::V4(octets) => ArpRequest::query(octets, dev),
    }
}

/// Decodes what the device-control call handed back.
pub fn interpret_reply(reply: DeviceReply) -> (resolution: Resolution)
    ensures
        resolution_view(resolution) == answer(reply),
{
    match reply {
        Ok(record) => Ok(record.resolved()),
        Err(code) => Err(ResolveError::OsCallFailed(code)),
    }
}

/// Looks up the hardware address of `addr` on the interface `dev`: `Ok` with
/// the address of a complete entry, `Ok(None)` for an entry that is not
/// complete, `Err` where the lookup is refused or the call failed.
///
/// `device_control` stands for the kernel: it is called with the operation
/// code and the query record, and returns the record as the kernel left it or
/// the error number of the failed call. It is called once where a query can be
/// made, and not at all where `planned_query` gives an error: its precondition
/// is asked for on the planned record only.
pub fn ip_to_mac<F>(
    platform: Platform,
    addr: IpAddress,
    dev: &[u8],
    device_control: F,
) -> (resolution: Resolution) where F: FnOnce(u64, ArpRequest) -> DeviceReply
    requires
        forall|record: ArpRequest|
            planned_query(platform, addr, dev@) == Ok::<ArpRequestView, ResolveError>(record@)
                ==> #[trigger] device_control.requires((SIOCGARP, record)),
    ensures
        planned_query(platform, addr, dev@) matches Err(error) ==> resolution == Err::<
            Option<HardwareAddress>,
            ResolveError,
        >(error),
        planned_query(platform, addr, dev@) matches Ok(query) ==> exists|
            record: ArpRequest,
            reply: DeviceReply,
        |
            record@ == query && #[trigger] device_control.ensures((SIOCGARP, record), reply)
                && resolution_view(resolution) == answer(reply),
{
    match prepare_query(platform, addr, dev) {
        Err(error) => Err(error),
        Ok(record) => {
            let reply = device_control(SIOCGARP, record);
            interpret_reply(reply)
        },
    }
}

} // verus!
