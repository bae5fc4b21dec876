//! The route sub-protocol: route records, their typed attribute
//! dictionary, and the enumerations they use.

mod attribute;
mod flags;
mod message;
mod protocol;
mod scope;
mod table;
mod types;

pub use attribute::RouteAttribute;
pub use attribute::RouteAttributeV;
pub use flags::RouteFlag;
pub use message::DeleteRoute;
pub use message::GetRoute;
pub use message::NewRoute;
pub use message::RouteMessage;
pub use message::RouteMessageV;
pub use message::lemma_route_record_round_trip;
pub use flags::RouteFlags;
pub use protocol::RouteProtocol;
pub use scope::RouteScope;
pub use table::RouteTable;
pub use types::RouteType;
