//! The faults a raw-socket operation can report to its caller.

use vstd::prelude::*;

verus! {

/// Every failure of an open, read, write or close operation.
///
/// Resolution and channel-open failures surface from `open`; `Timeout`,
/// `IoError` and `BufferTooSmall` are scoped to the single read or write call
/// that reported them and leave the handle usable; `InvalidHandle` rejects an
/// operation on a handle value that is not live.
#[derive(Debug, PartialEq, Eq)]
pub enum SockError {
    /// No interface of the requested name is visible to the process.
    InterfaceNotFound,
    /// The platform refused to open a link-layer channel; carries its message.
    ChannelOpenError(String),
    /// The platform offered a channel that is not an Ethernet duplex channel.
    UnsupportedChannelType,
    /// No frame arrived within the receive timeout window.
    Timeout,
    /// A platform send or receive failure; carries its message.
    IoError(String),
    /// A requested range does not fit inside the supplied buffer.
    BufferTooSmall,
    /// The handle value does not refer to a live, open handle.
    InvalidHandle,
}

} // verus!
