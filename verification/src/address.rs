//! The address sub-protocol: interface address records, their typed
//! attribute dictionary, and the flags they use.

mod attribute;
mod cache_info;
mod flags;
mod message;

pub use attribute::IFA_PROTO;
pub use attribute::IFA_RT_PRIORITY;
pub use attribute::IFA_TARGET_NETNSID;
pub use attribute::InterfaceAddressAttribute;
pub use attribute::InterfaceAddressAttributeV;
pub use cache_info::AddressCacheInfo;
pub use flags::AddressFlag;
pub use flags::AddressFlags;
pub use message::DeleteAddress;
pub use message::GetAddress;
pub use message::InterfaceAddressMessage;
pub use message::InterfaceAddressMessageV;
pub use message::NewAddress;
pub use message::lemma_address_record_round_trip;
