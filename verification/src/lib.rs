//! Looks up the link-layer address that the operating system's neighbor table
//! holds for an IPv4 address on a local interface.
//!
//! The library builds the query record that the kernel expects, hands it to a
//! device-control callback supplied by the caller, and decodes what comes
//! back. It opens no socket and makes no system call itself.

pub mod error;
pub mod guarantees;
pub mod hardware;
pub mod query;
pub mod record;

pub use error::{OsErrorCode, ResolveError};
pub use hardware::HardwareAddress;
pub use query::{interpret_reply, ip_to_mac, prepare_query, DeviceReply, IpAddress, Platform, Resolution};
pub use record::{ArpRequest, SocketAddress};
