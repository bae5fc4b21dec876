//! The error taxonomy of the library. Every failure of the codec or of the
//! receive path surfaces as one of these kinds; none is retried internally.

use vstd::prelude::*;

verus! {

/// Everything that can go wrong while encoding, decoding, sending or
/// receiving a netlink message.
#[derive(Clone, Copy, Debug, PartialEq, Eq, Structural)]
pub enum NetlinkError {
    /// The underlying datagram call failed.
    IoError,
    /// A header or fixed-width field was truncated.
    ShortInput,
    /// An envelope header is structurally invalid: its length field is
    /// below 16, exceeds the buffer, or cannot be represented.
    BadFrame,
    /// An attribute header is malformed: its declared length is below 4.
    BadAttribute,
    /// An attribute's payload is shorter than its declared length.
    TruncatedAttribute,
    /// An attribute payload too large for the 16-bit length field.
    AttributeTooLong,
    /// A string attribute is not valid UTF-8 or lacks its zero terminator.
    BadString,
    /// A closed-set enumeration field carries an unrecognized value.
    UnknownEnumerant,
    /// The outer message type does not match the expected payload type.
    MessageTypeMismatch,
    /// The datagram read returned zero bytes in the middle of a dump.
    UnexpectedEndOfStream,
}

} // verus!
