//! The link sub-protocol: interface information records, their typed
//! attribute dictionary, and the enumerations they use.

mod af_spec;
mod attribute;
mod device_type;
mod flags;
mod link_info;
mod message;
mod stats;

pub use af_spec::AddressFamilySpecific;
pub use af_spec::AddressFamilySpecificV;
pub use attribute::InterfaceInfoAttribute;
pub use attribute::InterfaceInfoAttributeV;
pub use device_type::ArpHardware;
pub use flags::InterfaceFlag;
pub use flags::InterfaceFlags;
pub use link_info::LinkInfo;
pub use link_info::LinkInfoV;
pub use message::DeleteLink;
pub use message::GetLink;
pub use message::InterfaceInfoMessage;
pub use message::InterfaceInfoMessageV;
pub use message::NewLink;
pub use message::lemma_link_record_round_trip;
pub use stats::InterfaceStats;
pub use stats::InterfaceStats64;
