//! A user-space client library for the Linux rtnetlink control plane.
//!
//! The library provides a byte-exact codec for netlink envelopes, the
//! family-specific record payloads (link, address, route), and the typed
//! attribute dictionaries that follow each record header, together with a
//! receive state machine that reassembles multi-fragment dump responses.
//! Every codec function carries a contract relating it to a mathematical
//! model of the wire format, and the round-trip laws between the two
//! directions are proved.

pub mod address;
pub mod address_family;
pub mod attribute;
pub mod error;
pub mod flag;
pub mod link;
pub mod message;
pub mod receive;
pub mod route;
pub mod types;
pub mod utils;

pub use attribute::RawAttribute;
pub use attribute::RawAttributeIter;
pub use attribute::serialize_attribute_into;
pub use error::NetlinkError;
pub use message::ErrorPayload;
pub use message::Header;
pub use message::Message;
pub use message::MessageV;
pub use message::NoPayload;
pub use message::Payload;
pub use receive::ReceiveProgress;
pub use receive::ReceivedMessage;
pub use receive::begin_receive;
pub use receive::continue_receive;
pub use utils::align_attribute_len;
pub use utils::read_u16;
pub use utils::read_u32;
