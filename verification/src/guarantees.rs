//! What holds of every lookup, whatever the address, the interface and the
//! kernel's answer.

use vstd::prelude::*;
use crate::error::ResolveError;
use crate::hardware::{HardwareAddress, HARDWARE_ADDRESS_LEN};
use crate::query::{answer, planned_query, resolution_view, DeviceReply, IpAddress, Platform, Resolution};
use crate::record::{ArpRequest, ArpRequestView, DEVICE_NAME_CAPACITY};

verus! {

/// Whether two replies report the same entry: the same error number, or
/// records that agree on completeness and, where complete, on the six bytes of
/// the hardware address.
pub open spec fn same_entry(first: DeviceReply, second: DeviceReply) -> bool {
    match (first, second) {
        (Err(first_code), Err(second_code)) => first_code == second_code,
        (Ok(first_record), Ok(second_record)) => {
            &&& first_record@.is_complete() == second_record@.is_complete()
            &&& first_record@.is_complete() ==> first_record@.hardware_octets()
                == second_record@.hardware_octets()
        },
        _ => false,
    }
}

/// For an IPv4 address and an interface name that fits the device-name field,
/// on a supported platform, a query is made, and the lookup ends in exactly
/// one of three ways, decided by the reply alone: a hardware address, if the
/// call succeeded and the entry is complete; no address, if the call succeeded
/// and the entry is not complete; the call's error number, if the call failed.
/// No address comes with the other two.
pub proof fn lemma_three_outcomes(
    platform: Platform,
    octets: [u8; 4],
    dev: Seq<u8>,
    reply: DeviceReply,
    resolution: Resolution,
)
    requires
        platform.is_supported(),
        dev.len() <= DEVICE_NAME_CAPACITY,
        resolution_view(resolution) == answer(reply),
    ensures
        planned_query(platform, IpAddress::V4(octets), dev) == Ok::<ArpRequestView, ResolveError>(
            ArpRequestView::query(octets@, dev),
        ),
        resolution matches Ok(Some(address)) <==> (reply matches Ok(record)
            && record@.is_complete()),
        resolution matches Ok(Some(address)) ==> (reply matches Ok(record) && address@
            == record@.hardware_octets()),
        resolution matches Ok(None) <==> (reply matches Ok(record) && !record@.is_complete()),
        resolution matches Err(error) <==> reply is Err,
        reply matches Err(code) ==> resolution == Err::<Option<HardwareAddress>, ResolveError>(
            ResolveError::OsCallFailed(code),
        ),
{
}

/// A hardware address that a lookup hands back has exactly six bytes: the
/// first six of the record's hardware-address field.
pub proof fn lemma_resolved_has_six_bytes(reply: DeviceReply, resolution: Resolution)
    requires
        resolution_view(resolution) == answer(reply),
    ensures
        resolution matches Ok(Some(address)) ==> address@.len() == HARDWARE_ADDRESS_LEN,
        answer(reply) matches Ok(Some(octets)) ==> octets.len() == HARDWARE_ADDRESS_LEN,
{
    if let Ok(Some(address)) = resolution {
        address.lemma_len();
    }
}

/// Preparing a query keeps nothing between calls: two results that meet what
/// `prepare_query` promises for the same platform, address and interface name
/// are the same, down to the last byte of the record.
pub proof fn lemma_repeated_query_agrees(
    platform: Platform,
    addr: IpAddress,
    dev: Seq<u8>,
    first: Result<ArpRequest, ResolveError>,
    second: Result<ArpRequest, ResolveError>,
)
    requires
        planned_query(platform, addr, dev) matches Ok(query) ==> (first matches Ok(record)
            && record@ == query),
        planned_query(platform, addr, dev) matches Ok(query) ==> (second matches Ok(record)
            && record@ == query),
        planned_query(platform, addr, dev) matches Err(error) ==> first == Err::<
            ArpRequest,
            ResolveError,
        >(error),
        planned_query(platform, addr, dev) matches Err(error) ==> second == Err::<
            ArpRequest,
            ResolveError,
        >(error),
    ensures
        first == second,
{
    if let (Ok(first_record), Ok(second_record)) = (first, second) {
        first_record.lemma_view_injective(second_record);
    }
}

/// A lookup keeps nothing between calls: two lookups of the same address on
/// the same interface hand back the same result, if the kernel reports the
/// same entry to both. Where the lookup is refused, both are refused alike and
/// the kernel is not asked.
pub proof fn lemma_repeated_lookup_agrees(
    platform: Platform,
    addr: IpAddress,
    dev: Seq<u8>,
    first_reply: DeviceReply,
    second_reply: DeviceReply,
    first: Resolution,
    second: Resolution,
)
    requires
        planned_query(platform, addr, dev) matches Err(error) ==> first == Err::<
            Option<HardwareAddress>,
            ResolveError,
        >(error),
        planned_query(platform, addr, dev) matches Err(error) ==> second == Err::<
            Option<HardwareAddress>,
            ResolveError,
        >(error),
        planned_query(platform, addr, dev) is Ok ==> resolution_view(first) == answer(first_reply),
        planned_query(platform, addr, dev) is Ok ==> resolution_view(second) == answer(
            second_reply,
        ),
        planned_query(platform, addr, dev) is Ok ==> same_entry(first_reply, second_reply),
    ensures
        first == second,
{
    if let (Ok(Some(first_address)), Ok(Some(second_address))) = (first, second) {
        first_address.lemma_view_injective(second_address);
    }
}

/// On a platform that is not supported, every lookup is refused with
/// `UnsupportedPlatform`, whatever the address and the interface name, and no
/// record is planned for a device-control call.
pub proof fn lemma_unsupported_platform_refuses(platform: Platform, addr: IpAddress, dev: Seq<u8>)
    requires
        !platform.is_supported(),
    ensures
        planned_query(platform, addr, dev) == Err::<ArpRequestView, ResolveError>(
            ResolveError::UnsupportedPlatform,
        ),
{
}

/// An interface name of up to the capacity of the device-name field, the
/// capacity itself included, is laid out in that field and touches no other:
/// the record differs from that of the empty name in the device name alone. A
/// name of even one byte more is refused, so that no record is submitted.
pub proof fn lemma_device_name_boundary(platform: Platform, octets: [u8; 4], dev: Seq<u8>)
    requires
        platform.is_supported(),
    ensures
        dev.len() <= DEVICE_NAME_CAPACITY ==> ({
            let query = ArpRequestView::query(octets@, dev);
            let unnamed = ArpRequestView::query(octets@, Seq::empty());
            &&& planned_query(platform, IpAddress::V4(octets), dev) == Ok::<
                ArpRequestView,
                ResolveError,
            >(query)
            &&& query == (ArpRequestView { device: query.device, ..unnamed })
            &&& query.device.len() == DEVICE_NAME_CAPACITY
            &&& query.device.subrange(0, dev.len() as int) == dev
            &&& forall|i: int| dev.len() <= i < DEVICE_NAME_CAPACITY ==> query.device[i] == 0
        }),
        dev.len() == DEVICE_NAME_CAPACITY ==> ArpRequestView::query(octets@, dev).device == dev,
        dev.len() > DEVICE_NAME_CAPACITY ==> planned_query(platform, IpAddress::V4(octets), dev)
            == Err::<ArpRequestView, ResolveError>(ResolveError::InterfaceNameTooLong),
{
}

} // verus!
