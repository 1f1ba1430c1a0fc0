//! The record that carries a neighbor-table query to the kernel and its answer
//! back.
//!
//! The record has the fields of Linux's `struct arpreq`, in the same order: the
//! protocol address asked about, the hardware address found, the entry's flags,
//! a netmask and the name of the interface. Addresses are generic socket
//! addresses: a family tag and fourteen bytes of data.

use vstd::prelude::*;
use crate::error::ResolveError;
use crate::hardware::HardwareAddress;

verus! {

/// Address family of IPv4 socket addresses.
pub const AF_INET: u16 = 2;

/// Flag bit of a neighbor-table entry whose hardware address is known.
pub const ATF_COM: i32 = 0x02;

/// Device-control operation that reads one neighbor-table entry.
pub const SIOCGARP: u64 = 0x8954;

/// Number of data bytes in a generic socket address.
pub const SOCKET_ADDRESS_DATA_LEN: usize = 14;

/// Number of bytes in the record's device-name field.
pub const DEVICE_NAME_CAPACITY: usize = 16;

/// `n` zero bytes.
pub open spec fn zeros(n: nat) -> Seq<u8> {
    Seq::new(n, |i: int| 0u8)
}

/// A generic socket address: a family tag and the family's own encoding.
#[derive(Clone, Copy, Debug, PartialEq, Eq)]
pub struct SocketAddress {
    pub family: u16,
    pub data: [u8; 14],
}

/// What a [`SocketAddress`] holds.
pub struct SocketAddressView {
    pub family: u16,
    pub data: Seq<u8>,
}

impl View for SocketAddress {
    type V = SocketAddressView;

    open spec fn view(&self) -> SocketAddressView {
        SocketAddressView { family: self.family, data: self.data@ }
    }
}

impl SocketAddressView {
    /// The all-zero socket address.
    pub open spec fn zeroed() -> SocketAddressView {
        SocketAddressView { family: 0, data: zeros(SOCKET_ADDRESS_DATA_LEN as nat) }
    }

    /// The socket address of the IPv4 address `octets` with port zero: the
    /// two-byte port, the four address bytes, eight bytes of padding.
    pub open spec fn ipv4(octets: Seq<u8>) -> SocketAddressView
        recommends
            octets.len() == 4,
    {
        SocketAddressView { family: AF_INET, data: zeros(2) + octets + zeros(8) }
    }
}

impl SocketAddress {
    /// The all-zero socket address.
    pub fn zeroed() -> (address: SocketAddress)
        ensures
            address@ == SocketAddressView::zeroed(),
    {
        let address = SocketAddress { family: 0, data: [0u8; 14] };
        assert(address.data@ =~= zeros(SOCKET_ADDRESS_DATA_LEN as nat));
        address
    }

    /// The socket address of the IPv4 address `octets` with port zero.
    pub fn from_ipv4(octets: [u8; 4]) -> (address: SocketAddress)
        ensures
            address@ == SocketAddressView::ipv4(octets@),
    {
        let mut data = [0u8; 14];
        data[2] = octets[0];
        data[3] = octets[1];
        data[4] = octets[2];
        data[5] = octets[3];
        assert(data@ =~= zeros(2) + octets@ + zeros(8));
        SocketAddress { family: AF_INET, data }
    }
}

/// `name` followed by zero bytes up to the capacity of the device-name field.
pub open spec fn padded_device_name(name: Seq<u8>) -> Seq<u8>
    recommends
        name.len() <= DEVICE_NAME_CAPACITY,
{
    name + zeros((DEVICE_NAME_CAPACITY - name.len()) as nat)
}

/// Lays `name` out as a device-name field: the bytes of the name from the
/// start of the field, zero bytes after them. A name of exactly the field's
/// capacity fills it with no terminator; a longer one does not fit.
pub fn device_name_field(name: &[u8]) -> (field: Option<[u8; 16]>)
    ensures
        name@.len() <= DEVICE_NAME_CAPACITY ==> (field matches Some(bytes) && bytes@
            == padded_device_name(name@)),
        name@.len() > DEVICE_NAME_CAPACITY ==> field is None,
{
    if name.len() > DEVICE_NAME_CAPACITY {
        return None;
    }
    let mut bytes = [0u8; 16];
    let mut i: usize = 0;
    while i < name.len()
        invariant
            i <= name@.len() <= DEVICE_NAME_CAPACITY,
            forall|j: int| 0 <= j < i ==> bytes@[j] == name@[j],
            forall|j: int| i <= j < DEVICE_NAME_CAPACITY ==> bytes@[j] == 0u8,
        decreases name@.len() - i,
    {
        bytes[i] = name[i];
        i += 1;
    }
    Some(bytes)
}

/// The query record.
#[derive(Clone, Copy, Debug, PartialEq, Eq)]
pub struct ArpRequest {
    /// The protocol address whose entry is asked for.
    pub protocol_address: SocketAddress,
    /// The hardware address of the entry; filled in by the kernel.
    pub hardware_address: SocketAddress,
    /// The entry's flags; filled in by the kernel.
    pub flags: i32,
    /// Netmask of the entry; unused by a lookup.
    pub netmask: SocketAddress,
    /// Name of the interface whose table is asked.
    pub device: [u8; 16],
}

/// What an [`ArpRequest`] holds.
pub struct ArpRequestView {
    pub protocol_address: SocketAddressView,
    pub hardware_address: SocketAddressView,
    pub flags: i32,
    pub netmask: SocketAddressView,
    pub device: Seq<u8>,
}

impl View for ArpRequest {
    type V = ArpRequestView;

    open spec fn view(&self) -> ArpRequestView {
        ArpRequestView {
            protocol_address: self.protocol_address@,
            hardware_address: self.hardware_address@,
            flags: self.flags,
            netmask: self.netmask@,
            device: self.device@,
        }
    }
}

impl ArpRequestView {
    /// The record with every byte zero.
    pub open spec fn zeroed() -> ArpRequestView {
        ArpRequestView {
            protocol_address: SocketAddressView::zeroed(),
            hardware_address: SocketAddressView::zeroed(),
            flags: 0,
            netmask: SocketAddressView::zeroed(),
            device: zeros(DEVICE_NAME_CAPACITY as nat),
        }
    }

    /// The record that asks for the entry of the IPv4 address `octets` on the
    /// interface `name`: zero but for the protocol address and the device name.
    pub open spec fn query(octets: Seq<u8>, name: Seq<u8>) -> ArpRequestView {
        ArpRequestView {
            protocol_address: SocketAddressView::ipv4(octets),
            device: padded_device_name(name),
            ..ArpRequestView::zeroed()
        }
    }

    /// Whether the entry's hardware address is known.
    pub open spec fn is_complete(self) -> bool {
        self.flags & ATF_COM != 0
    }

    /// The first six data bytes of the hardware-address field.
    pub open spec fn hardware_octets(self) -> Seq<u8> {
        self.hardware_address.data.subrange(0, 6)
    }

    /// The hardware address that the record reports: that of a complete entry,
    /// none for an incomplete one.
    pub open spec fn resolved(self) -> Option<Seq<u8>> {
        if self.is_complete() {
            Some(self.hardware_octets())
        } else {
            None
        }
    }
}

impl ArpRequest {
    /// The record with every byte zero.
    pub fn zeroed() -> (record: ArpRequest)
        ensures
            record@ == ArpRequestView::zeroed(),
    {
        let record = ArpRequest {
            protocol_address: SocketAddress::zeroed(),
            hardware_address: SocketAddress::zeroed(),
            flags: 0,
            netmask: SocketAddress::zeroed(),
            device: [0u8; 16],
        };
        assert(record.device@ =~= zeros(DEVICE_NAME_CAPACITY as nat));
        record
    }

    /// Builds the record that asks for the entry of the IPv4 address `octets`
    /// on the interface `name`. A name longer than the device-name field is
    /// refused; nothing is cut off.
    pub fn query(octets: [u8; 4], name: &[u8]) -> (built: Result<ArpRequest, ResolveError>)
        ensures
            name@.len() <= DEVICE_NAME_CAPACITY ==> (built matches Ok(record) && record@
                == ArpRequestView::query(octets@, name@)),
            name@.len() > DEVICE_NAME_CAPACITY ==> built == Err::<ArpRequest, ResolveError>(
                ResolveError::InterfaceNameTooLong,
            ),
    {
        match device_name_field(name) {
            None => Err(ResolveError::InterfaceNameTooLong),
            Some(device) => {
                let mut record = ArpRequest::zeroed();
                record.protocol_address = SocketAddress::from_ipv4(octets);
                record.device = device;
                Ok(record)
            },
        }
    }

    /// A record is determined by what it holds.
    pub proof fn lemma_view_injective(self, other: ArpRequest)
        requires
            self@ == other@,
        ensures
            self == other,
    {
        assert(self.protocol_address.data =~= other.protocol_address.data);
        assert(self.hardware_address.data =~= other.hardware_address.data);
        assert(self.netmask.data =~= other.netmask.data);
        assert(self.device =~= other.device);
    }

    /// Whether the entry's hardware address is known.
    pub fn is_complete(&self) -> (complete: bool)
        ensures
            complete == self@.is_complete(),
    {
        self.flags & ATF_COM != 0
    }

    /// The hardware address that the record reports: that of a complete entry,
    /// none for an incomplete one.
    pub fn resolved(&self) -> (address: Option<HardwareAddress>)
        ensures
            self@.resolved() matches Some(octets) ==> (address matches Some(found) && found@
                == octets),
            self@.resolved() is None ==> address is None,
    {
        if self.is_complete() {
            let octets = [
                self.hardware_address.data[0],
                self.hardware_address.data[1],
                self.hardware_address.data[2],
                self.hardware_address.data[3],
                self.hardware_address.data[4],
                self.hardware_address.data[5],
            ];
            Some(HardwareAddress::new(octets))
        } else {
            None
        }
    }
}

} // verus!
