//! The link attribute dictionary, the kernel's `IFLA_*` tags. Two of
//! its payloads are themselves nested attribute lists, and two carry
//! the fixed statistics records.

use vstd::prelude::*;

verus! {

use vstd::bytes::lemma_auto_spec_u16_to_from_le_bytes;
use vstd::bytes::lemma_auto_spec_u32_to_from_le_bytes;

use crate::attribute::Attribute;
use crate::attribute::RawAttribute;
use crate::attribute::serialize_attribute_into;
use crate::attribute::spec_tlv;
use crate::attribute::tlv_fits;
use crate::error::NetlinkError;
use vstd::bytes::spec_u32_from_le_bytes;
use vstd::bytes::spec_u32_to_le_bytes;
use vstd::bytes::u32_from_le_bytes;
use vstd::bytes::u32_to_le_bytes;
use vstd::slice::slice_subrange;
use vstd::slice::slice_to_vec;
use vstd::string::StrSliceExecFns;
use vstd::utf8::decode_utf8;
use vstd::utf8::encode_utf8;
use vstd::utf8::encode_utf8_decode_utf8;
use vstd::utf8::encode_utf8_valid_utf8;
use vstd::utf8::valid_utf8;

use crate::utils::string_from_utf8;
use crate::attribute::attrs_bytes;
use crate::attribute::attrs_enc_ok;
use crate::attribute::attrs_wf;
use crate::attribute::lemma_attrs_round_trip;
use crate::attribute::lemma_attrs_wf_enc;
use crate::attribute::parse_attrs;
use crate::attribute::parse_attrs_exec;
use crate::attribute::serialize_attrs;
use crate::attribute::views_of;
use crate::link::af_spec::AddressFamilySpecific;
use crate::link::af_spec::AddressFamilySpecificV;
use crate::link::link_info::LinkInfo;
use crate::link::link_info::LinkInfoV;
use crate::link::stats::InterfaceStats;
use crate::link::stats::InterfaceStats64;

use crate::utils::lemma_cast_u32_i32;

/// The typed attributes of this dictionary. Unknown tags are kept in
/// the `Other` variant, bytes and all, and written back unchanged.
#[derive(Debug, Clone, PartialEq, Eq)]
pub enum InterfaceInfoAttribute {
    /// `IFLA_UNSPEC`
    Unspecified(Vec<u8>),
    /// `IFLA_ADDRESS`
    Address(Vec<u8>),
    /// `IFLA_BROADCAST`
    Broadcast(Vec<u8>),
    /// `IFLA_IFNAME`
    InterfaceName(String),
    /// `IFLA_MTU`
    MTU(u32),
    /// `IFLA_LINK`
    Link(i32),
    /// `IFLA_QDISC`
    QueueDiscipline(String),
    /// `IFLA_STATS`
    Stats(InterfaceStats),
    /// `IFLA_COST`
    Cost(Vec<u8>),
    /// `IFLA_PRIORITY`
    Priority(Vec<u8>),
    /// `IFLA_MASTER`
    Master(Vec<u8>),
    /// `IFLA_WIRELESS`
    Wireless(Vec<u8>),
    /// `IFLA_PROTINFO`
    ProtocolInfo(Vec<u8>),
    /// `IFLA_TXQLEN`
    TxQueueLength(u32),
    /// `IFLA_MAP`
    DeviceMap(Vec<u8>),
    /// `IFLA_WEIGHT`
    Weight(Vec<u8>),
    /// `IFLA_OPERSTATE`
    OperationalState(u8),
    /// `IFLA_LINKMODE`
    LinkMode(u8),
    /// `IFLA_LINKINFO`
    LinkInfo(Vec<LinkInfo>),
    /// `IFLA_NET_NS_PID`
    NetNamespacePid(Vec<u8>),
    /// `IFLA_IFALIAS`
    InterfaceAlias(String),
    /// `IFLA_NUM_VF`
    NumVf(u32),
    /// `IFLA_VFINFO_LIST`
    VfInfoList(Vec<u8>),
    /// `IFLA_STATS64`
    Stats64(InterfaceStats64),
    /// `IFLA_VF_PORTS`
    VfPorts(Vec<u8>),
    /// `IFLA_PORT_SELF`
    PortSelf(Vec<u8>),
    /// `IFLA_AF_SPEC`
    AddressFamilySpecific(Vec<AddressFamilySpecific>),
    /// `IFLA_GROUP`
    Group(u32),
    /// `IFLA_NET_NS_FD`
    NetNamespaceFd(Vec<u8>),
    /// `IFLA_EXT_MASK`
    ExtMask(Vec<u8>),
    /// `IFLA_PROMISCUITY`
    Promiscuity(u32),
    /// `IFLA_NUM_TX_QUEUES`
    NumTxQueues(u32),
    /// `IFLA_NUM_RX_QUEUES`
    NumRxQueues(u32),
    /// `IFLA_CARRIER`
    Carrier(Vec<u8>),
    /// `IFLA_PHYS_PORT_ID`
    PhysicalPortId(Vec<u8>),
    /// `IFLA_CARRIER_CHANGES`
    CarrierChanges(u32),
    /// `IFLA_PHYS_SWITCH_ID`
    PhysicalSwitchId(Vec<u8>),
    /// `IFLA_LINK_NETNSID`
    LinkNetNamespaceId(Vec<u8>),
    /// `IFLA_PHYS_PORT_NAME`
    PhysicalPortName(Vec<u8>),
    /// `IFLA_PROTO_DOWN`
    ProtocolDown(Vec<u8>),
    /// `IFLA_GSO_MAX_SEGS`
    GsoMaxSegments(u32),
    /// `IFLA_GSO_MAX_SIZE`
    GsoMaxSize(u32),
    /// `IFLA_PAD`
    Pad(Vec<u8>),
    /// `IFLA_XDP`
    Xdp(Vec<u8>),
    /// `IFLA_EVENT`
    Event(Vec<u8>),
    /// `IFLA_NEW_NETNSID`
    NewNetNamespaceId(Vec<u8>),
    /// `IFLA_IF_NETNSID`
    InterfaceNetNamespaceId(Vec<u8>),
    /// `IFLA_TARGET_NETNSID`. The kernel gives this name the same tag
    /// as `IFLA_IF_NETNSID`, so a decoder always yields the
    /// `InterfaceNetNamespaceId` variant for it.
    TargetNetNamespaceId(Vec<u8>),
    /// `IFLA_CARRIER_UP_COUNT`
    CarrierUpCount(u32),
    /// `IFLA_CARRIER_DOWN_COUNT`
    CarrierDownCount(u32),
    /// `IFLA_NEW_IFINDEX`
    NewInterfaceIndex(i32),
    /// `IFLA_MIN_MTU`
    MinMTU(u32),
    /// `IFLA_MAX_MTU`
    MaxMTU(u32),
    /// `IFLA_PROP_LIST`
    PropertiesList(Vec<u8>),
    /// `IFLA_ALT_IFNAME`
    AlternativeName(Vec<u8>),
    /// `IFLA_PERM_ADDRESS`
    PermanentAddress(Vec<u8>),
    /// `IFLA_PROTO_DOWN_REASON`
    ProtocolDownReason(Vec<u8>),
    /// `IFLA_PARENT_DEV_NAME`
    ParentDeviceName(String),
    /// `IFLA_PARENT_DEV_BUS_NAME`
    ParentDeviceBusName(String),
    /// `IFLA_GRO_MAX_SIZE`
    GroMaxSize(u32),
    /// `IFLA_TSO_MAX_SIZE`
    TsoMaxSize(u32),
    /// `IFLA_TSO_MAX_SEGS`
    TsoMaxSegments(u32),
    /// `IFLA_ALLMULTI`
    AllMulti(u32),
    /// An attribute with a tag this dictionary does not know.
    Other(u16, Vec<u8>),
}

/// The mathematical model of [`InterfaceInfoAttribute`]: the same variants over
/// sequences and plain values.
pub enum InterfaceInfoAttributeV {
    Unspecified(Seq<u8>),
    Address(Seq<u8>),
    Broadcast(Seq<u8>),
    InterfaceName(Seq<char>),
    MTU(u32),
    Link(i32),
    QueueDiscipline(Seq<char>),
    Stats(InterfaceStats),
    Cost(Seq<u8>),
    Priority(Seq<u8>),
    Master(Seq<u8>),
    Wireless(Seq<u8>),
    ProtocolInfo(Seq<u8>),
    TxQueueLength(u32),
    DeviceMap(Seq<u8>),
    Weight(Seq<u8>),
    OperationalState(u8),
    LinkMode(u8),
    LinkInfo(Seq<LinkInfoV>),
    NetNamespacePid(Seq<u8>),
    InterfaceAlias(Seq<char>),
    NumVf(u32),
    VfInfoList(Seq<u8>),
    Stats64(InterfaceStats64),
    VfPorts(Seq<u8>),
    PortSelf(Seq<u8>),
    AddressFamilySpecific(Seq<AddressFamilySpecificV>),
    Group(u32),
    NetNamespaceFd(Seq<u8>),
    ExtMask(Seq<u8>),
    Promiscuity(u32),
    NumTxQueues(u32),
    NumRxQueues(u32),
    Carrier(Seq<u8>),
    PhysicalPortId(Seq<u8>),
    CarrierChanges(u32),
    PhysicalSwitchId(Seq<u8>),
    LinkNetNamespaceId(Seq<u8>),
    PhysicalPortName(Seq<u8>),
    ProtocolDown(Seq<u8>),
    GsoMaxSegments(u32),
    GsoMaxSize(u32),
    Pad(Seq<u8>),
    Xdp(Seq<u8>),
    Event(Seq<u8>),
    NewNetNamespaceId(Seq<u8>),
    InterfaceNetNamespaceId(Seq<u8>),
    TargetNetNamespaceId(Seq<u8>),
    CarrierUpCount(u32),
    CarrierDownCount(u32),
    NewInterfaceIndex(i32),
    MinMTU(u32),
    MaxMTU(u32),
    PropertiesList(Seq<u8>),
    AlternativeName(Seq<u8>),
    PermanentAddress(Seq<u8>),
    ProtocolDownReason(Seq<u8>),
    ParentDeviceName(Seq<char>),
    ParentDeviceBusName(Seq<char>),
    GroMaxSize(u32),
    TsoMaxSize(u32),
    TsoMaxSegments(u32),
    AllMulti(u32),
    Other(u16, Seq<u8>),
}

impl View for InterfaceInfoAttribute {
    type V = InterfaceInfoAttributeV;

    open spec fn view(&self) -> InterfaceInfoAttributeV {
        match self {
            InterfaceInfoAttribute::Unspecified(x) => InterfaceInfoAttributeV::Unspecified(x@),
            InterfaceInfoAttribute::Address(x) => InterfaceInfoAttributeV::Address(x@),
            InterfaceInfoAttribute::Broadcast(x) => InterfaceInfoAttributeV::Broadcast(x@),
            InterfaceInfoAttribute::InterfaceName(x) => InterfaceInfoAttributeV::InterfaceName(x@),
            InterfaceInfoAttribute::MTU(x) => InterfaceInfoAttributeV::MTU(*x),
            InterfaceInfoAttribute::Link(x) => InterfaceInfoAttributeV::Link(*x),
            InterfaceInfoAttribute::QueueDiscipline(x) => InterfaceInfoAttributeV::QueueDiscipline(x@),
            InterfaceInfoAttribute::Stats(x) => InterfaceInfoAttributeV::Stats(*x),
            InterfaceInfoAttribute::Cost(x) => InterfaceInfoAttributeV::Cost(x@),
            InterfaceInfoAttribute::Priority(x) => InterfaceInfoAttributeV::Priority(x@),
            InterfaceInfoAttribute::Master(x) => InterfaceInfoAttributeV::Master(x@),
            InterfaceInfoAttribute::Wireless(x) => InterfaceInfoAttributeV::Wireless(x@),
            InterfaceInfoAttribute::ProtocolInfo(x) => InterfaceInfoAttributeV::ProtocolInfo(x@),
            InterfaceInfoAttribute::TxQueueLength(x) => InterfaceInfoAttributeV::TxQueueLength(*x),
            InterfaceInfoAttribute::DeviceMap(x) => InterfaceInfoAttributeV::DeviceMap(x@),
            InterfaceInfoAttribute::Weight(x) => InterfaceInfoAttributeV::Weight(x@),
            InterfaceInfoAttribute::OperationalState(x) => InterfaceInfoAttributeV::OperationalState(*x),
            InterfaceInfoAttribute::LinkMode(x) => InterfaceInfoAttributeV::LinkMode(*x),
            InterfaceInfoAttribute::LinkInfo(x) => InterfaceInfoAttributeV::LinkInfo(views_of(x@)),
            InterfaceInfoAttribute::NetNamespacePid(x) => InterfaceInfoAttributeV::NetNamespacePid(x@),
            InterfaceInfoAttribute::InterfaceAlias(x) => InterfaceInfoAttributeV::InterfaceAlias(x@),
            InterfaceInfoAttribute::NumVf(x) => InterfaceInfoAttributeV::NumVf(*x),
            InterfaceInfoAttribute::VfInfoList(x) => InterfaceInfoAttributeV::VfInfoList(x@),
            InterfaceInfoAttribute::Stats64(x) => InterfaceInfoAttributeV::Stats64(*x),
            InterfaceInfoAttribute::VfPorts(x) => InterfaceInfoAttributeV::VfPorts(x@),
            InterfaceInfoAttribute::PortSelf(x) => InterfaceInfoAttributeV::PortSelf(x@),
            InterfaceInfoAttribute::AddressFamilySpecific(x) => InterfaceInfoAttributeV::AddressFamilySpecific(views_of(x@)),
            InterfaceInfoAttribute::Group(x) => InterfaceInfoAttributeV::Group(*x),
            InterfaceInfoAttribute::NetNamespaceFd(x) => InterfaceInfoAttributeV::NetNamespaceFd(x@),
            InterfaceInfoAttribute::ExtMask(x) => InterfaceInfoAttributeV::ExtMask(x@),
            InterfaceInfoAttribute::Promiscuity(x) => InterfaceInfoAttributeV::Promiscuity(*x),
            InterfaceInfoAttribute::NumTxQueues(x) => InterfaceInfoAttributeV::NumTxQueues(*x),
            InterfaceInfoAttribute::NumRxQueues(x) => InterfaceInfoAttributeV::NumRxQueues(*x),
            InterfaceInfoAttribute::Carrier(x) => InterfaceInfoAttributeV::Carrier(x@),
            InterfaceInfoAttribute::PhysicalPortId(x) => InterfaceInfoAttributeV::PhysicalPortId(x@),
            InterfaceInfoAttribute::CarrierChanges(x) => InterfaceInfoAttributeV::CarrierChanges(*x),
            InterfaceInfoAttribute::PhysicalSwitchId(x) => InterfaceInfoAttributeV::PhysicalSwitchId(x@),
            InterfaceInfoAttribute::LinkNetNamespaceId(x) => InterfaceInfoAttributeV::LinkNetNamespaceId(x@),
            InterfaceInfoAttribute::PhysicalPortName(x) => InterfaceInfoAttributeV::PhysicalPortName(x@),
            InterfaceInfoAttribute::ProtocolDown(x) => InterfaceInfoAttributeV::ProtocolDown(x@),
            InterfaceInfoAttribute::GsoMaxSegments(x) => InterfaceInfoAttributeV::GsoMaxSegments(*x),
            InterfaceInfoAttribute::GsoMaxSize(x) => InterfaceInfoAttributeV::GsoMaxSize(*x),
            InterfaceInfoAttribute::Pad(x) => InterfaceInfoAttributeV::Pad(x@),
            InterfaceInfoAttribute::Xdp(x) => InterfaceInfoAttributeV::Xdp(x@),
            InterfaceInfoAttribute::Event(x) => InterfaceInfoAttributeV::Event(x@),
            InterfaceInfoAttribute::NewNetNamespaceId(x) => InterfaceInfoAttributeV::NewNetNamespaceId(x@),
            InterfaceInfoAttribute::InterfaceNetNamespaceId(x) => InterfaceInfoAttributeV::InterfaceNetNamespaceId(x@),
            InterfaceInfoAttribute::TargetNetNamespaceId(x) => InterfaceInfoAttributeV::TargetNetNamespaceId(x@),
            InterfaceInfoAttribute::CarrierUpCount(x) => InterfaceInfoAttributeV::CarrierUpCount(*x),
            InterfaceInfoAttribute::CarrierDownCount(x) => InterfaceInfoAttributeV::CarrierDownCount(*x),
            InterfaceInfoAttribute::NewInterfaceIndex(x) => InterfaceInfoAttributeV::NewInterfaceIndex(*x),
            InterfaceInfoAttribute::MinMTU(x) => InterfaceInfoAttributeV::MinMTU(*x),
            InterfaceInfoAttribute::MaxMTU(x) => InterfaceInfoAttributeV::MaxMTU(*x),
            InterfaceInfoAttribute::PropertiesList(x) => InterfaceInfoAttributeV::PropertiesList(x@),
            InterfaceInfoAttribute::AlternativeName(x) => InterfaceInfoAttributeV::AlternativeName(x@),
            InterfaceInfoAttribute::PermanentAddress(x) => InterfaceInfoAttributeV::PermanentAddress(x@),
            InterfaceInfoAttribute::ProtocolDownReason(x) => InterfaceInfoAttributeV::ProtocolDownReason(x@),
            InterfaceInfoAttribute::ParentDeviceName(x) => InterfaceInfoAttributeV::ParentDeviceName(x@),
            InterfaceInfoAttribute::ParentDeviceBusName(x) => InterfaceInfoAttributeV::ParentDeviceBusName(x@),
            InterfaceInfoAttribute::GroMaxSize(x) => InterfaceInfoAttributeV::GroMaxSize(*x),
            InterfaceInfoAttribute::TsoMaxSize(x) => InterfaceInfoAttributeV::TsoMaxSize(*x),
            InterfaceInfoAttribute::TsoMaxSegments(x) => InterfaceInfoAttributeV::TsoMaxSegments(*x),
            InterfaceInfoAttribute::AllMulti(x) => InterfaceInfoAttributeV::AllMulti(*x),
            InterfaceInfoAttribute::Other(t, b) => InterfaceInfoAttributeV::Other(*t, b@),
        }
    }
}

/// Whether this dictionary assigns the tag a typed variant.
pub open spec fn interface_info_attribute_known_tag(tag: u16) -> bool {
    tag <= 61
}

impl Attribute for InterfaceInfoAttribute {
    open spec fn spec_tag(v: InterfaceInfoAttributeV) -> u16 {
        match v {
            InterfaceInfoAttributeV::Unspecified(_) => 0u16,
            InterfaceInfoAttributeV::Address(_) => 1u16,
            InterfaceInfoAttributeV::Broadcast(_) => 2u16,
            InterfaceInfoAttributeV::InterfaceName(_) => 3u16,
            InterfaceInfoAttributeV::MTU(_) => 4u16,
            InterfaceInfoAttributeV::Link(_) => 5u16,
            InterfaceInfoAttributeV::QueueDiscipline(_) => 6u16,
            InterfaceInfoAttributeV::Stats(_) => 7u16,
            InterfaceInfoAttributeV::Cost(_) => 8u16,
            InterfaceInfoAttributeV::Priority(_) => 9u16,
            InterfaceInfoAttributeV::Master(_) => 10u16,
            InterfaceInfoAttributeV::Wireless(_) => 11u16,
            InterfaceInfoAttributeV::ProtocolInfo(_) => 12u16,
            InterfaceInfoAttributeV::TxQueueLength(_) => 13u16,
            InterfaceInfoAttributeV::DeviceMap(_) => 14u16,
            InterfaceInfoAttributeV::Weight(_) => 15u16,
            InterfaceInfoAttributeV::OperationalState(_) => 16u16,
            InterfaceInfoAttributeV::LinkMode(_) => 17u16,
            InterfaceInfoAttributeV::LinkInfo(_) => 18u16,
            InterfaceInfoAttributeV::NetNamespacePid(_) => 19u16,
            InterfaceInfoAttributeV::InterfaceAlias(_) => 20u16,
            InterfaceInfoAttributeV::NumVf(_) => 21u16,
            InterfaceInfoAttributeV::VfInfoList(_) => 22u16,
            InterfaceInfoAttributeV::Stats64(_) => 23u16,
            InterfaceInfoAttributeV::VfPorts(_) => 24u16,
            InterfaceInfoAttributeV::PortSelf(_) => 25u16,
            InterfaceInfoAttributeV::AddressFamilySpecific(_) => 26u16,
            InterfaceInfoAttributeV::Group(_) => 27u16,
            InterfaceInfoAttributeV::NetNamespaceFd(_) => 28u16,
            InterfaceInfoAttributeV::ExtMask(_) => 29u16,
            InterfaceInfoAttributeV::Promiscuity(_) => 30u16,
            InterfaceInfoAttributeV::NumTxQueues(_) => 31u16,
            InterfaceInfoAttributeV::NumRxQueues(_) => 32u16,
            InterfaceInfoAttributeV::Carrier(_) => 33u16,
            InterfaceInfoAttributeV::PhysicalPortId(_) => 34u16,
            InterfaceInfoAttributeV::CarrierChanges(_) => 35u16,
            InterfaceInfoAttributeV::PhysicalSwitchId(_) => 36u16,
            InterfaceInfoAttributeV::LinkNetNamespaceId(_) => 37u16,
            InterfaceInfoAttributeV::PhysicalPortName(_) => 38u16,
            InterfaceInfoAttributeV::ProtocolDown(_) => 39u16,
            InterfaceInfoAttributeV::GsoMaxSegments(_) => 40u16,
            InterfaceInfoAttributeV::GsoMaxSize(_) => 41u16,
            InterfaceInfoAttributeV::Pad(_) => 42u16,
            InterfaceInfoAttributeV::Xdp(_) => 43u16,
            InterfaceInfoAttributeV::Event(_) => 44u16,
            InterfaceInfoAttributeV::NewNetNamespaceId(_) => 45u16,
            InterfaceInfoAttributeV::InterfaceNetNamespaceId(_) => 46u16,
            InterfaceInfoAttributeV::TargetNetNamespaceId(_) => 46u16,
            InterfaceInfoAttributeV::CarrierUpCount(_) => 47u16,
            InterfaceInfoAttributeV::CarrierDownCount(_) => 48u16,
            InterfaceInfoAttributeV::NewInterfaceIndex(_) => 49u16,
            InterfaceInfoAttributeV::MinMTU(_) => 50u16,
            InterfaceInfoAttributeV::MaxMTU(_) => 51u16,
            InterfaceInfoAttributeV::PropertiesList(_) => 52u16,
            InterfaceInfoAttributeV::AlternativeName(_) => 53u16,
            InterfaceInfoAttributeV::PermanentAddress(_) => 54u16,
            InterfaceInfoAttributeV::ProtocolDownReason(_) => 55u16,
            InterfaceInfoAttributeV::ParentDeviceName(_) => 56u16,
            InterfaceInfoAttributeV::ParentDeviceBusName(_) => 57u16,
            InterfaceInfoAttributeV::GroMaxSize(_) => 58u16,
            InterfaceInfoAttributeV::TsoMaxSize(_) => 59u16,
            InterfaceInfoAttributeV::TsoMaxSegments(_) => 60u16,
            InterfaceInfoAttributeV::AllMulti(_) => 61u16,
            InterfaceInfoAttributeV::Other(t, _) => t,
        }
    }

    open spec fn spec_body(v: InterfaceInfoAttributeV) -> Seq<u8> {
        match v {
            InterfaceInfoAttributeV::Unspecified(b) => b,
            InterfaceInfoAttributeV::Address(b) => b,
            InterfaceInfoAttributeV::Broadcast(b) => b,
            InterfaceInfoAttributeV::InterfaceName(b) => encode_utf8(b) + seq![0u8],
            InterfaceInfoAttributeV::MTU(b) => spec_u32_to_le_bytes(b),
            InterfaceInfoAttributeV::Link(b) => spec_u32_to_le_bytes(b as u32),
            InterfaceInfoAttributeV::QueueDiscipline(b) => encode_utf8(b) + seq![0u8],
            InterfaceInfoAttributeV::Stats(b) => b.spec_bytes(),
            InterfaceInfoAttributeV::Cost(b) => b,
            InterfaceInfoAttributeV::Priority(b) => b,
            InterfaceInfoAttributeV::Master(b) => b,
            InterfaceInfoAttributeV::Wireless(b) => b,
            InterfaceInfoAttributeV::ProtocolInfo(b) => b,
            InterfaceInfoAttributeV::TxQueueLength(b) => spec_u32_to_le_bytes(b),
            InterfaceInfoAttributeV::DeviceMap(b) => b,
            InterfaceInfoAttributeV::Weight(b) => b,
            InterfaceInfoAttributeV::OperationalState(b) => seq![b],
            InterfaceInfoAttributeV::LinkMode(b) => seq![b],
            InterfaceInfoAttributeV::LinkInfo(b) => attrs_bytes::<LinkInfo>(b),
            InterfaceInfoAttributeV::NetNamespacePid(b) => b,
            InterfaceInfoAttributeV::InterfaceAlias(b) => encode_utf8(b) + seq![0u8],
            InterfaceInfoAttributeV::NumVf(b) => spec_u32_to_le_bytes(b),
            InterfaceInfoAttributeV::VfInfoList(b) => b,
            InterfaceInfoAttributeV::Stats64(b) => b.spec_bytes(),
            InterfaceInfoAttributeV::VfPorts(b) => b,
            InterfaceInfoAttributeV::PortSelf(b) => b,
            InterfaceInfoAttributeV::AddressFamilySpecific(b) => attrs_bytes::<AddressFamilySpecific>(b),
            InterfaceInfoAttributeV::Group(b) => spec_u32_to_le_bytes(b),
            InterfaceInfoAttributeV::NetNamespaceFd(b) => b,
            InterfaceInfoAttributeV::ExtMask(b) => b,
            InterfaceInfoAttributeV::Promiscuity(b) => spec_u32_to_le_bytes(b),
            InterfaceInfoAttributeV::NumTxQueues(b) => spec_u32_to_le_bytes(b),
            InterfaceInfoAttributeV::NumRxQueues(b) => spec_u32_to_le_bytes(b),
            InterfaceInfoAttributeV::Carrier(b) => b,
            InterfaceInfoAttributeV::PhysicalPortId(b) => b,
            InterfaceInfoAttributeV::CarrierChanges(b) => spec_u32_to_le_bytes(b),
            InterfaceInfoAttributeV::PhysicalSwitchId(b) => b,
            InterfaceInfoAttributeV::LinkNetNamespaceId(b) => b,
            InterfaceInfoAttributeV::PhysicalPortName(b) => b,
            InterfaceInfoAttributeV::ProtocolDown(b) => b,
            InterfaceInfoAttributeV::GsoMaxSegments(b) => spec_u32_to_le_bytes(b),
            InterfaceInfoAttributeV::GsoMaxSize(b) => spec_u32_to_le_bytes(b),
            InterfaceInfoAttributeV::Pad(b) => b,
            InterfaceInfoAttributeV::Xdp(b) => b,
            InterfaceInfoAttributeV::Event(b) => b,
            InterfaceInfoAttributeV::NewNetNamespaceId(b) => b,
            InterfaceInfoAttributeV::InterfaceNetNamespaceId(b) => b,
            InterfaceInfoAttributeV::TargetNetNamespaceId(b) => b,
            InterfaceInfoAttributeV::CarrierUpCount(b) => spec_u32_to_le_bytes(b),
            InterfaceInfoAttributeV::CarrierDownCount(b) => spec_u32_to_le_bytes(b),
            InterfaceInfoAttributeV::NewInterfaceIndex(b) => spec_u32_to_le_bytes(b as u32),
            InterfaceInfoAttributeV::MinMTU(b) => spec_u32_to_le_bytes(b),
            InterfaceInfoAttributeV::MaxMTU(b) => spec_u32_to_le_bytes(b),
            InterfaceInfoAttributeV::PropertiesList(b) => b,
            InterfaceInfoAttributeV::AlternativeName(b) => b,
            InterfaceInfoAttributeV::PermanentAddress(b) => b,
            InterfaceInfoAttributeV::ProtocolDownReason(b) => b,
            InterfaceInfoAttributeV::ParentDeviceName(b) => encode_utf8(b) + seq![0u8],
            InterfaceInfoAttributeV::ParentDeviceBusName(b) => encode_utf8(b) + seq![0u8],
            InterfaceInfoAttributeV::GroMaxSize(b) => spec_u32_to_le_bytes(b),
            InterfaceInfoAttributeV::TsoMaxSize(b) => spec_u32_to_le_bytes(b),
            InterfaceInfoAttributeV::TsoMaxSegments(b) => spec_u32_to_le_bytes(b),
            InterfaceInfoAttributeV::AllMulti(b) => spec_u32_to_le_bytes(b),
            InterfaceInfoAttributeV::Other(_, b) => b,
        }
    }

    open spec fn spec_enc_ok(v: InterfaceInfoAttributeV) -> bool {
        match v {
            InterfaceInfoAttributeV::Unspecified(_) => tlv_fits(InterfaceInfoAttribute::spec_body(v)),
            InterfaceInfoAttributeV::Address(_) => tlv_fits(InterfaceInfoAttribute::spec_body(v)),
            InterfaceInfoAttributeV::Broadcast(_) => tlv_fits(InterfaceInfoAttribute::spec_body(v)),
            InterfaceInfoAttributeV::InterfaceName(_) => tlv_fits(InterfaceInfoAttribute::spec_body(v)),
            InterfaceInfoAttributeV::MTU(_) => true,
            InterfaceInfoAttributeV::Link(_) => true,
            InterfaceInfoAttributeV::QueueDiscipline(_) => tlv_fits(InterfaceInfoAttribute::spec_body(v)),
            InterfaceInfoAttributeV::Stats(_) => true,
            InterfaceInfoAttributeV::Cost(_) => tlv_fits(InterfaceInfoAttribute::spec_body(v)),
            InterfaceInfoAttributeV::Priority(_) => tlv_fits(InterfaceInfoAttribute::spec_body(v)),
            InterfaceInfoAttributeV::Master(_) => tlv_fits(InterfaceInfoAttribute::spec_body(v)),
            InterfaceInfoAttributeV::Wireless(_) => tlv_fits(InterfaceInfoAttribute::spec_body(v)),
            InterfaceInfoAttributeV::ProtocolInfo(_) => tlv_fits(InterfaceInfoAttribute::spec_body(v)),
            InterfaceInfoAttributeV::TxQueueLength(_) => true,
            InterfaceInfoAttributeV::DeviceMap(_) => tlv_fits(InterfaceInfoAttribute::spec_body(v)),
            InterfaceInfoAttributeV::Weight(_) => tlv_fits(InterfaceInfoAttribute::spec_body(v)),
            InterfaceInfoAttributeV::OperationalState(_) => true,
            InterfaceInfoAttributeV::LinkMode(_) => true,
            InterfaceInfoAttributeV::LinkInfo(b) => attrs_enc_ok::<LinkInfo>(b) && tlv_fits(attrs_bytes::<LinkInfo>(b)),
            InterfaceInfoAttributeV::NetNamespacePid(_) => tlv_fits(InterfaceInfoAttribute::spec_body(v)),
            InterfaceInfoAttributeV::InterfaceAlias(_) => tlv_fits(InterfaceInfoAttribute::spec_body(v)),
            InterfaceInfoAttributeV::NumVf(_) => true,
            InterfaceInfoAttributeV::VfInfoList(_) => tlv_fits(InterfaceInfoAttribute::spec_body(v)),
            InterfaceInfoAttributeV::Stats64(_) => true,
            InterfaceInfoAttributeV::VfPorts(_) => tlv_fits(InterfaceInfoAttribute::spec_body(v)),
            InterfaceInfoAttributeV::PortSelf(_) => tlv_fits(InterfaceInfoAttribute::spec_body(v)),
            InterfaceInfoAttributeV::AddressFamilySpecific(b) => attrs_enc_ok::<AddressFamilySpecific>(b) && tlv_fits(attrs_bytes::<AddressFamilySpecific>(b)),
            InterfaceInfoAttributeV::Group(_) => true,
            InterfaceInfoAttributeV::NetNamespaceFd(_) => tlv_fits(InterfaceInfoAttribute::spec_body(v)),
            InterfaceInfoAttributeV::ExtMask(_) => tlv_fits(InterfaceInfoAttribute::spec_body(v)),
            InterfaceInfoAttributeV::Promiscuity(_) => true,
            InterfaceInfoAttributeV::NumTxQueues(_) => true,
            InterfaceInfoAttributeV::NumRxQueues(_) => true,
            InterfaceInfoAttributeV::Carrier(_) => tlv_fits(InterfaceInfoAttribute::spec_body(v)),
            InterfaceInfoAttributeV::PhysicalPortId(_) => tlv_fits(InterfaceInfoAttribute::spec_body(v)),
            InterfaceInfoAttributeV::CarrierChanges(_) => true,
            InterfaceInfoAttributeV::PhysicalSwitchId(_) => tlv_fits(InterfaceInfoAttribute::spec_body(v)),
            InterfaceInfoAttributeV::LinkNetNamespaceId(_) => tlv_fits(InterfaceInfoAttribute::spec_body(v)),
            InterfaceInfoAttributeV::PhysicalPortName(_) => tlv_fits(InterfaceInfoAttribute::spec_body(v)),
            InterfaceInfoAttributeV::ProtocolDown(_) => tlv_fits(InterfaceInfoAttribute::spec_body(v)),
            InterfaceInfoAttributeV::GsoMaxSegments(_) => true,
            InterfaceInfoAttributeV::GsoMaxSize(_) => true,
            InterfaceInfoAttributeV::Pad(_) => tlv_fits(InterfaceInfoAttribute::spec_body(v)),
            InterfaceInfoAttributeV::Xdp(_) => tlv_fits(InterfaceInfoAttribute::spec_body(v)),
            InterfaceInfoAttributeV::Event(_) => tlv_fits(InterfaceInfoAttribute::spec_body(v)),
            InterfaceInfoAttributeV::NewNetNamespaceId(_) => tlv_fits(InterfaceInfoAttribute::spec_body(v)),
            InterfaceInfoAttributeV::InterfaceNetNamespaceId(_) => tlv_fits(InterfaceInfoAttribute::spec_body(v)),
            InterfaceInfoAttributeV::TargetNetNamespaceId(_) => tlv_fits(InterfaceInfoAttribute::spec_body(v)),
            InterfaceInfoAttributeV::CarrierUpCount(_) => true,
            InterfaceInfoAttributeV::CarrierDownCount(_) => true,
            InterfaceInfoAttributeV::NewInterfaceIndex(_) => true,
            InterfaceInfoAttributeV::MinMTU(_) => true,
            InterfaceInfoAttributeV::MaxMTU(_) => true,
            InterfaceInfoAttributeV::PropertiesList(_) => tlv_fits(InterfaceInfoAttribute::spec_body(v)),
            InterfaceInfoAttributeV::AlternativeName(_) => tlv_fits(InterfaceInfoAttribute::spec_body(v)),
            InterfaceInfoAttributeV::PermanentAddress(_) => tlv_fits(InterfaceInfoAttribute::spec_body(v)),
            InterfaceInfoAttributeV::ProtocolDownReason(_) => tlv_fits(InterfaceInfoAttribute::spec_body(v)),
            InterfaceInfoAttributeV::ParentDeviceName(_) => tlv_fits(InterfaceInfoAttribute::spec_body(v)),
            InterfaceInfoAttributeV::ParentDeviceBusName(_) => tlv_fits(InterfaceInfoAttribute::spec_body(v)),
            InterfaceInfoAttributeV::GroMaxSize(_) => true,
            InterfaceInfoAttributeV::TsoMaxSize(_) => true,
            InterfaceInfoAttributeV::TsoMaxSegments(_) => true,
            InterfaceInfoAttributeV::AllMulti(_) => true,
            InterfaceInfoAttributeV::Other(_, b) => tlv_fits(b),
        }
    }

    open spec fn spec_wf(v: InterfaceInfoAttributeV) -> bool {
        match v {
            InterfaceInfoAttributeV::Unspecified(_) => tlv_fits(InterfaceInfoAttribute::spec_body(v)),
            InterfaceInfoAttributeV::Address(_) => tlv_fits(InterfaceInfoAttribute::spec_body(v)),
            InterfaceInfoAttributeV::Broadcast(_) => tlv_fits(InterfaceInfoAttribute::spec_body(v)),
            InterfaceInfoAttributeV::InterfaceName(_) => tlv_fits(InterfaceInfoAttribute::spec_body(v)),
            InterfaceInfoAttributeV::MTU(_) => true,
            InterfaceInfoAttributeV::Link(_) => true,
            InterfaceInfoAttributeV::QueueDiscipline(_) => tlv_fits(InterfaceInfoAttribute::spec_body(v)),
            InterfaceInfoAttributeV::Stats(_) => true,
            InterfaceInfoAttributeV::Cost(_) => tlv_fits(InterfaceInfoAttribute::spec_body(v)),
            InterfaceInfoAttributeV::Priority(_) => tlv_fits(InterfaceInfoAttribute::spec_body(v)),
            InterfaceInfoAttributeV::Master(_) => tlv_fits(InterfaceInfoAttribute::spec_body(v)),
            InterfaceInfoAttributeV::Wireless(_) => tlv_fits(InterfaceInfoAttribute::spec_body(v)),
            InterfaceInfoAttributeV::ProtocolInfo(_) => tlv_fits(InterfaceInfoAttribute::spec_body(v)),
            InterfaceInfoAttributeV::TxQueueLength(_) => true,
            InterfaceInfoAttributeV::DeviceMap(_) => tlv_fits(InterfaceInfoAttribute::spec_body(v)),
            InterfaceInfoAttributeV::Weight(_) => tlv_fits(InterfaceInfoAttribute::spec_body(v)),
            InterfaceInfoAttributeV::OperationalState(_) => true,
            InterfaceInfoAttributeV::LinkMode(_) => true,
            InterfaceInfoAttributeV::LinkInfo(b) => attrs_wf::<LinkInfo>(b) && tlv_fits(attrs_bytes::<LinkInfo>(b)),
            InterfaceInfoAttributeV::NetNamespacePid(_) => tlv_fits(InterfaceInfoAttribute::spec_body(v)),
            InterfaceInfoAttributeV::InterfaceAlias(_) => tlv_fits(InterfaceInfoAttribute::spec_body(v)),
            InterfaceInfoAttributeV::NumVf(_) => true,
            InterfaceInfoAttributeV::VfInfoList(_) => tlv_fits(InterfaceInfoAttribute::spec_body(v)),
            InterfaceInfoAttributeV::Stats64(_) => true,
            InterfaceInfoAttributeV::VfPorts(_) => tlv_fits(InterfaceInfoAttribute::spec_body(v)),
            InterfaceInfoAttributeV::PortSelf(_) => tlv_fits(InterfaceInfoAttribute::spec_body(v)),
            InterfaceInfoAttributeV::AddressFamilySpecific(b) => attrs_wf::<AddressFamilySpecific>(b) && tlv_fits(attrs_bytes::<AddressFamilySpecific>(b)),
            InterfaceInfoAttributeV::Group(_) => true,
            InterfaceInfoAttributeV::NetNamespaceFd(_) => tlv_fits(InterfaceInfoAttribute::spec_body(v)),
            InterfaceInfoAttributeV::ExtMask(_) => tlv_fits(InterfaceInfoAttribute::spec_body(v)),
            InterfaceInfoAttributeV::Promiscuity(_) => true,
            InterfaceInfoAttributeV::NumTxQueues(_) => true,
            InterfaceInfoAttributeV::NumRxQueues(_) => true,
            InterfaceInfoAttributeV::Carrier(_) => tlv_fits(InterfaceInfoAttribute::spec_body(v)),
            InterfaceInfoAttributeV::PhysicalPortId(_) => tlv_fits(InterfaceInfoAttribute::spec_body(v)),
            InterfaceInfoAttributeV::CarrierChanges(_) => true,
            InterfaceInfoAttributeV::PhysicalSwitchId(_) => tlv_fits(InterfaceInfoAttribute::spec_body(v)),
            InterfaceInfoAttributeV::LinkNetNamespaceId(_) => tlv_fits(InterfaceInfoAttribute::spec_body(v)),
            InterfaceInfoAttributeV::PhysicalPortName(_) => tlv_fits(InterfaceInfoAttribute::spec_body(v)),
            InterfaceInfoAttributeV::ProtocolDown(_) => tlv_fits(InterfaceInfoAttribute::spec_body(v)),
            InterfaceInfoAttributeV::GsoMaxSegments(_) => true,
            InterfaceInfoAttributeV::GsoMaxSize(_) => true,
            InterfaceInfoAttributeV::Pad(_) => tlv_fits(InterfaceInfoAttribute::spec_body(v)),
            InterfaceInfoAttributeV::Xdp(_) => tlv_fits(InterfaceInfoAttribute::spec_body(v)),
            InterfaceInfoAttributeV::Event(_) => tlv_fits(InterfaceInfoAttribute::spec_body(v)),
            InterfaceInfoAttributeV::NewNetNamespaceId(_) => tlv_fits(InterfaceInfoAttribute::spec_body(v)),
            InterfaceInfoAttributeV::InterfaceNetNamespaceId(_) => tlv_fits(InterfaceInfoAttribute::spec_body(v)),
            InterfaceInfoAttributeV::TargetNetNamespaceId(_) => false,
            InterfaceInfoAttributeV::CarrierUpCount(_) => true,
            InterfaceInfoAttributeV::CarrierDownCount(_) => true,
            InterfaceInfoAttributeV::NewInterfaceIndex(_) => true,
            InterfaceInfoAttributeV::MinMTU(_) => true,
            InterfaceInfoAttributeV::MaxMTU(_) => true,
            InterfaceInfoAttributeV::PropertiesList(_) => tlv_fits(InterfaceInfoAttribute::spec_body(v)),
            InterfaceInfoAttributeV::AlternativeName(_) => tlv_fits(InterfaceInfoAttribute::spec_body(v)),
            InterfaceInfoAttributeV::PermanentAddress(_) => tlv_fits(InterfaceInfoAttribute::spec_body(v)),
            InterfaceInfoAttributeV::ProtocolDownReason(_) => tlv_fits(InterfaceInfoAttribute::spec_body(v)),
            InterfaceInfoAttributeV::ParentDeviceName(_) => tlv_fits(InterfaceInfoAttribute::spec_body(v)),
            InterfaceInfoAttributeV::ParentDeviceBusName(_) => tlv_fits(InterfaceInfoAttribute::spec_body(v)),
            InterfaceInfoAttributeV::GroMaxSize(_) => true,
            InterfaceInfoAttributeV::TsoMaxSize(_) => true,
            InterfaceInfoAttributeV::TsoMaxSegments(_) => true,
            InterfaceInfoAttributeV::AllMulti(_) => true,
            InterfaceInfoAttributeV::Other(t, b) => !interface_info_attribute_known_tag(t) && tlv_fits(b),
        }
    }

    open spec fn spec_decode(tag: u16, body: Seq<u8>) -> Result<InterfaceInfoAttributeV, NetlinkError> {
        if tag == 0u16 {
            Ok(InterfaceInfoAttributeV::Unspecified(body))
        } else if tag == 1u16 {
            Ok(InterfaceInfoAttributeV::Address(body))
        } else if tag == 2u16 {
            Ok(InterfaceInfoAttributeV::Broadcast(body))
        } else if tag == 3u16 {
            if body.len() >= 1 && body.last() == 0u8 {
                if valid_utf8(body.drop_last()) {
                    Ok(InterfaceInfoAttributeV::InterfaceName(decode_utf8(body.drop_last())))
                } else {
                    Err(NetlinkError::BadString)
                }
            } else {
                Err(NetlinkError::BadString)
            }
        } else if tag == 4u16 {
            if body.len() == 4 {
                Ok(InterfaceInfoAttributeV::MTU(spec_u32_from_le_bytes(body)))
            } else {
                Err(NetlinkError::BadAttribute)
            }
        } else if tag == 5u16 {
            if body.len() == 4 {
                Ok(InterfaceInfoAttributeV::Link(spec_u32_from_le_bytes(body) as i32))
            } else {
                Err(NetlinkError::BadAttribute)
            }
        } else if tag == 6u16 {
            if body.len() >= 1 && body.last() == 0u8 {
                if valid_utf8(body.drop_last()) {
                    Ok(InterfaceInfoAttributeV::QueueDiscipline(decode_utf8(body.drop_last())))
                } else {
                    Err(NetlinkError::BadString)
                }
            } else {
                Err(NetlinkError::BadString)
            }
        } else if tag == 7u16 {
            if body.len() == 96 {
                Ok(InterfaceInfoAttributeV::Stats(InterfaceStats::spec_parse(body)))
            } else {
                Err(NetlinkError::BadAttribute)
            }
        } else if tag == 8u16 {
            Ok(InterfaceInfoAttributeV::Cost(body))
        } else if tag == 9u16 {
            Ok(InterfaceInfoAttributeV::Priority(body))
        } else if tag == 10u16 {
            Ok(InterfaceInfoAttributeV::Master(body))
        } else if tag == 11u16 {
            Ok(InterfaceInfoAttributeV::Wireless(body))
        } else if tag == 12u16 {
            Ok(InterfaceInfoAttributeV::ProtocolInfo(body))
        } else if tag == 13u16 {
            if body.len() == 4 {
                Ok(InterfaceInfoAttributeV::TxQueueLength(spec_u32_from_le_bytes(body)))
            } else {
                Err(NetlinkError::BadAttribute)
            }
        } else if tag == 14u16 {
            Ok(InterfaceInfoAttributeV::DeviceMap(body))
        } else if tag == 15u16 {
            Ok(InterfaceInfoAttributeV::Weight(body))
        } else if tag == 16u16 {
            if body.len() == 1 {
                Ok(InterfaceInfoAttributeV::OperationalState(body[0]))
            } else {
                Err(NetlinkError::BadAttribute)
            }
        } else if tag == 17u16 {
            if body.len() == 1 {
                Ok(InterfaceInfoAttributeV::LinkMode(body[0]))
            } else {
                Err(NetlinkError::BadAttribute)
            }
        } else if tag == 18u16 {
            match parse_attrs::<LinkInfo>(body) {
                Ok(items) => Ok(InterfaceInfoAttributeV::LinkInfo(items)),
                Err(e) => Err(e),
            }
        } else if tag == 19u16 {
            Ok(InterfaceInfoAttributeV::NetNamespacePid(body))
        } else if tag == 20u16 {
            if body.len() >= 1 && body.last() == 0u8 {
                if valid_utf8(body.drop_last()) {
                    Ok(InterfaceInfoAttributeV::InterfaceAlias(decode_utf8(body.drop_last())))
                } else {
                    Err(NetlinkError::BadString)
                }
            } else {
                Err(NetlinkError::BadString)
            }
        } else if tag == 21u16 {
            if body.len() == 4 {
                Ok(InterfaceInfoAttributeV::NumVf(spec_u32_from_le_bytes(body)))
            } else {
                Err(NetlinkError::BadAttribute)
            }
        } else if tag == 22u16 {
            Ok(InterfaceInfoAttributeV::VfInfoList(body))
        } else if tag == 23u16 {
            if body.len() == 200 {
                Ok(InterfaceInfoAttributeV::Stats64(InterfaceStats64::spec_parse(body)))
            } else {
                Err(NetlinkError::BadAttribute)
            }
        } else if tag == 24u16 {
            Ok(InterfaceInfoAttributeV::VfPorts(body))
        } else if tag == 25u16 {
            Ok(InterfaceInfoAttributeV::PortSelf(body))
        } else if tag == 26u16 {
            match parse_attrs::<AddressFamilySpecific>(body) {
                Ok(items) => Ok(InterfaceInfoAttributeV::AddressFamilySpecific(items)),
                Err(e) => Err(e),
            }
        } else if tag == 27u16 {
            if body.len() == 4 {
                Ok(InterfaceInfoAttributeV::Group(spec_u32_from_le_bytes(body)))
            } else {
                Err(NetlinkError::BadAttribute)
            }
        } else if tag == 28u16 {
            Ok(InterfaceInfoAttributeV::NetNamespaceFd(body))
        } else if tag == 29u16 {
            Ok(InterfaceInfoAttributeV::ExtMask(body))
        } else if tag == 30u16 {
            if body.len() == 4 {
                Ok(InterfaceInfoAttributeV::Promiscuity(spec_u32_from_le_bytes(body)))
            } else {
                Err(NetlinkError::BadAttribute)
            }
        } else if tag == 31u16 {
            if body.len() == 4 {
                Ok(InterfaceInfoAttributeV::NumTxQueues(spec_u32_from_le_bytes(body)))
            } else {
                Err(NetlinkError::BadAttribute)
            }
        } else if tag == 32u16 {
            if body.len() == 4 {
                Ok(InterfaceInfoAttributeV::NumRxQueues(spec_u32_from_le_bytes(body)))
            } else {
                Err(NetlinkError::BadAttribute)
            }
        } else if tag == 33u16 {
            Ok(InterfaceInfoAttributeV::Carrier(body))
        } else if tag == 34u16 {
            Ok(InterfaceInfoAttributeV::PhysicalPortId(body))
        } else if tag == 35u16 {
            if body.len() == 4 {
                Ok(InterfaceInfoAttributeV::CarrierChanges(spec_u32_from_le_bytes(body)))
            } else {
                Err(NetlinkError::BadAttribute)
            }
        } else if tag == 36u16 {
            Ok(InterfaceInfoAttributeV::PhysicalSwitchId(body))
        } else if tag == 37u16 {
            Ok(InterfaceInfoAttributeV::LinkNetNamespaceId(body))
        } else if tag == 38u16 {
            Ok(InterfaceInfoAttributeV::PhysicalPortName(body))
        } else if tag == 39u16 {
            Ok(InterfaceInfoAttributeV::ProtocolDown(body))
        } else if tag == 40u16 {
            if body.len() == 4 {
                Ok(InterfaceInfoAttributeV::GsoMaxSegments(spec_u32_from_le_bytes(body)))
            } else {
                Err(NetlinkError::BadAttribute)
            }
        } else if tag == 41u16 {
            if body.len() == 4 {
                Ok(InterfaceInfoAttributeV::GsoMaxSize(spec_u32_from_le_bytes(body)))
            } else {
                Err(NetlinkError::BadAttribute)
            }
        } else if tag == 42u16 {
            Ok(InterfaceInfoAttributeV::Pad(body))
        } else if tag == 43u16 {
            Ok(InterfaceInfoAttributeV::Xdp(body))
        } else if tag == 44u16 {
            Ok(InterfaceInfoAttributeV::Event(body))
        } else if tag == 45u16 {
            Ok(InterfaceInfoAttributeV::NewNetNamespaceId(body))
        } else if tag == 46u16 {
            Ok(InterfaceInfoAttributeV::InterfaceNetNamespaceId(body))
        } else if tag == 47u16 {
            if body.len() == 4 {
                Ok(InterfaceInfoAttributeV::CarrierUpCount(spec_u32_from_le_bytes(body)))
            } else {
                Err(NetlinkError::BadAttribute)
            }
        } else if tag == 48u16 {
            if body.len() == 4 {
                Ok(InterfaceInfoAttributeV::CarrierDownCount(spec_u32_from_le_bytes(body)))
            } else {
                Err(NetlinkError::BadAttribute)
            }
        } else if tag == 49u16 {
            if body.len() == 4 {
                Ok(InterfaceInfoAttributeV::NewInterfaceIndex(spec_u32_from_le_bytes(body) as i32))
            } else {
                Err(NetlinkError::BadAttribute)
            }
        } else if tag == 50u16 {
            if body.len() == 4 {
                Ok(InterfaceInfoAttributeV::MinMTU(spec_u32_from_le_bytes(body)))
            } else {
                Err(NetlinkError::BadAttribute)
            }
        } else if tag == 51u16 {
            if body.len() == 4 {
                Ok(InterfaceInfoAttributeV::MaxMTU(spec_u32_from_le_bytes(body)))
            } else {
                Err(NetlinkError::BadAttribute)
            }
        } else if tag == 52u16 {
            Ok(InterfaceInfoAttributeV::PropertiesList(body))
        } else if tag == 53u16 {
            Ok(InterfaceInfoAttributeV::AlternativeName(body))
        } else if tag == 54u16 {
            Ok(InterfaceInfoAttributeV::PermanentAddress(body))
        } else if tag == 55u16 {
            Ok(InterfaceInfoAttributeV::ProtocolDownReason(body))
        } else if tag == 56u16 {
            if body.len() >= 1 && body.last() == 0u8 {
                if valid_utf8(body.drop_last()) {
                    Ok(InterfaceInfoAttributeV::ParentDeviceName(decode_utf8(body.drop_last())))
                } else {
                    Err(NetlinkError::BadString)
                }
            } else {
                Err(NetlinkError::BadString)
            }
        } else if tag == 57u16 {
            if body.len() >= 1 && body.last() == 0u8 {
                if valid_utf8(body.drop_last()) {
                    Ok(InterfaceInfoAttributeV::ParentDeviceBusName(decode_utf8(body.drop_last())))
                } else {
                    Err(NetlinkError::BadString)
                }
            } else {
                Err(NetlinkError::BadString)
            }
        } else if tag == 58u16 {
            if body.len() == 4 {
                Ok(InterfaceInfoAttributeV::GroMaxSize(spec_u32_from_le_bytes(body)))
            } else {
                Err(NetlinkError::BadAttribute)
            }
        } else if tag == 59u16 {
            if body.len() == 4 {
                Ok(InterfaceInfoAttributeV::TsoMaxSize(spec_u32_from_le_bytes(body)))
            } else {
                Err(NetlinkError::BadAttribute)
            }
        } else if tag == 60u16 {
            if body.len() == 4 {
                Ok(InterfaceInfoAttributeV::TsoMaxSegments(spec_u32_from_le_bytes(body)))
            } else {
                Err(NetlinkError::BadAttribute)
            }
        } else if tag == 61u16 {
            if body.len() == 4 {
                Ok(InterfaceInfoAttributeV::AllMulti(spec_u32_from_le_bytes(body)))
            } else {
                Err(NetlinkError::BadAttribute)
            }
        } else {
            Ok(InterfaceInfoAttributeV::Other(tag, body))
        }
    }

    proof fn lemma_wf_enc(v: InterfaceInfoAttributeV) {
        match v {
            InterfaceInfoAttributeV::Unspecified(_) => {},
            InterfaceInfoAttributeV::Address(_) => {},
            InterfaceInfoAttributeV::Broadcast(_) => {},
            InterfaceInfoAttributeV::InterfaceName(_) => {},
            InterfaceInfoAttributeV::MTU(_) => {},
            InterfaceInfoAttributeV::Link(_) => {},
            InterfaceInfoAttributeV::QueueDiscipline(_) => {},
            InterfaceInfoAttributeV::Stats(_) => {},
            InterfaceInfoAttributeV::Cost(_) => {},
            InterfaceInfoAttributeV::Priority(_) => {},
            InterfaceInfoAttributeV::Master(_) => {},
            InterfaceInfoAttributeV::Wireless(_) => {},
            InterfaceInfoAttributeV::ProtocolInfo(_) => {},
            InterfaceInfoAttributeV::TxQueueLength(_) => {},
            InterfaceInfoAttributeV::DeviceMap(_) => {},
            InterfaceInfoAttributeV::Weight(_) => {},
            InterfaceInfoAttributeV::OperationalState(_) => {},
            InterfaceInfoAttributeV::LinkMode(_) => {},
            InterfaceInfoAttributeV::LinkInfo(items) => {
                lemma_attrs_wf_enc::<LinkInfo>(items);
            },
            InterfaceInfoAttributeV::NetNamespacePid(_) => {},
            InterfaceInfoAttributeV::InterfaceAlias(_) => {},
            InterfaceInfoAttributeV::NumVf(_) => {},
            InterfaceInfoAttributeV::VfInfoList(_) => {},
            InterfaceInfoAttributeV::Stats64(_) => {},
            InterfaceInfoAttributeV::VfPorts(_) => {},
            InterfaceInfoAttributeV::PortSelf(_) => {},
            InterfaceInfoAttributeV::AddressFamilySpecific(items) => {
                lemma_attrs_wf_enc::<AddressFamilySpecific>(items);
            },
            InterfaceInfoAttributeV::Group(_) => {},
            InterfaceInfoAttributeV::NetNamespaceFd(_) => {},
            InterfaceInfoAttributeV::ExtMask(_) => {},
            InterfaceInfoAttributeV::Promiscuity(_) => {},
            InterfaceInfoAttributeV::NumTxQueues(_) => {},
            InterfaceInfoAttributeV::NumRxQueues(_) => {},
            InterfaceInfoAttributeV::Carrier(_) => {},
            InterfaceInfoAttributeV::PhysicalPortId(_) => {},
            InterfaceInfoAttributeV::CarrierChanges(_) => {},
            InterfaceInfoAttributeV::PhysicalSwitchId(_) => {},
            InterfaceInfoAttributeV::LinkNetNamespaceId(_) => {},
            InterfaceInfoAttributeV::PhysicalPortName(_) => {},
            InterfaceInfoAttributeV::ProtocolDown(_) => {},
            InterfaceInfoAttributeV::GsoMaxSegments(_) => {},
            InterfaceInfoAttributeV::GsoMaxSize(_) => {},
            InterfaceInfoAttributeV::Pad(_) => {},
            InterfaceInfoAttributeV::Xdp(_) => {},
            InterfaceInfoAttributeV::Event(_) => {},
            InterfaceInfoAttributeV::NewNetNamespaceId(_) => {},
            InterfaceInfoAttributeV::InterfaceNetNamespaceId(_) => {},
            InterfaceInfoAttributeV::TargetNetNamespaceId(_) => {},
            InterfaceInfoAttributeV::CarrierUpCount(_) => {},
            InterfaceInfoAttributeV::CarrierDownCount(_) => {},
            InterfaceInfoAttributeV::NewInterfaceIndex(_) => {},
            InterfaceInfoAttributeV::MinMTU(_) => {},
            InterfaceInfoAttributeV::MaxMTU(_) => {},
            InterfaceInfoAttributeV::PropertiesList(_) => {},
            InterfaceInfoAttributeV::AlternativeName(_) => {},
            InterfaceInfoAttributeV::PermanentAddress(_) => {},
            InterfaceInfoAttributeV::ProtocolDownReason(_) => {},
            InterfaceInfoAttributeV::ParentDeviceName(_) => {},
            InterfaceInfoAttributeV::ParentDeviceBusName(_) => {},
            InterfaceInfoAttributeV::GroMaxSize(_) => {},
            InterfaceInfoAttributeV::TsoMaxSize(_) => {},
            InterfaceInfoAttributeV::TsoMaxSegments(_) => {},
            InterfaceInfoAttributeV::AllMulti(_) => {},
            InterfaceInfoAttributeV::Other(_, _) => {},
        }
    }

    proof fn lemma_round_trip(v: InterfaceInfoAttributeV) {
        lemma_auto_spec_u16_to_from_le_bytes();
        lemma_auto_spec_u32_to_from_le_bytes();
        match v {
            InterfaceInfoAttributeV::Unspecified(_) => {},
            InterfaceInfoAttributeV::Address(_) => {},
            InterfaceInfoAttributeV::Broadcast(_) => {},
            InterfaceInfoAttributeV::InterfaceName(s) => {
                encode_utf8_valid_utf8(s);
                encode_utf8_decode_utf8(s);
                assert((encode_utf8(s) + seq![0u8]).last() == 0u8);
                assert((encode_utf8(s) + seq![0u8]).drop_last() =~= encode_utf8(s));
            },
            InterfaceInfoAttributeV::MTU(_) => {},
            InterfaceInfoAttributeV::Link(x) => {
                lemma_cast_u32_i32(x);
            },
            InterfaceInfoAttributeV::QueueDiscipline(s) => {
                encode_utf8_valid_utf8(s);
                encode_utf8_decode_utf8(s);
                assert((encode_utf8(s) + seq![0u8]).last() == 0u8);
                assert((encode_utf8(s) + seq![0u8]).drop_last() =~= encode_utf8(s));
            },
            InterfaceInfoAttributeV::Stats(st) => {
                st.lemma_bytes_len();
                st.lemma_round_trip();
            },
            InterfaceInfoAttributeV::Cost(_) => {},
            InterfaceInfoAttributeV::Priority(_) => {},
            InterfaceInfoAttributeV::Master(_) => {},
            InterfaceInfoAttributeV::Wireless(_) => {},
            InterfaceInfoAttributeV::ProtocolInfo(_) => {},
            InterfaceInfoAttributeV::TxQueueLength(_) => {},
            InterfaceInfoAttributeV::DeviceMap(_) => {},
            InterfaceInfoAttributeV::Weight(_) => {},
            InterfaceInfoAttributeV::OperationalState(x) => {
                assert(seq![x].len() == 1 && seq![x][0] == x);
            },
            InterfaceInfoAttributeV::LinkMode(x) => {
                assert(seq![x].len() == 1 && seq![x][0] == x);
            },
            InterfaceInfoAttributeV::LinkInfo(items) => {
                lemma_attrs_round_trip::<LinkInfo>(items);
            },
            InterfaceInfoAttributeV::NetNamespacePid(_) => {},
            InterfaceInfoAttributeV::InterfaceAlias(s) => {
                encode_utf8_valid_utf8(s);
                encode_utf8_decode_utf8(s);
                assert((encode_utf8(s) + seq![0u8]).last() == 0u8);
                assert((encode_utf8(s) + seq![0u8]).drop_last() =~= encode_utf8(s));
            },
            InterfaceInfoAttributeV::NumVf(_) => {},
            InterfaceInfoAttributeV::VfInfoList(_) => {},
            InterfaceInfoAttributeV::Stats64(st) => {
                st.lemma_bytes_len();
                st.lemma_round_trip();
            },
            InterfaceInfoAttributeV::VfPorts(_) => {},
            InterfaceInfoAttributeV::PortSelf(_) => {},
            InterfaceInfoAttributeV::AddressFamilySpecific(items) => {
                lemma_attrs_round_trip::<AddressFamilySpecific>(items);
            },
            InterfaceInfoAttributeV::Group(_) => {},
            InterfaceInfoAttributeV::NetNamespaceFd(_) => {},
            InterfaceInfoAttributeV::ExtMask(_) => {},
            InterfaceInfoAttributeV::Promiscuity(_) => {},
            InterfaceInfoAttributeV::NumTxQueues(_) => {},
            InterfaceInfoAttributeV::NumRxQueues(_) => {},
            InterfaceInfoAttributeV::Carrier(_) => {},
            InterfaceInfoAttributeV::PhysicalPortId(_) => {},
            InterfaceInfoAttributeV::CarrierChanges(_) => {},
            InterfaceInfoAttributeV::PhysicalSwitchId(_) => {},
            InterfaceInfoAttributeV::LinkNetNamespaceId(_) => {},
            InterfaceInfoAttributeV::PhysicalPortName(_) => {},
            InterfaceInfoAttributeV::ProtocolDown(_) => {},
            InterfaceInfoAttributeV::GsoMaxSegments(_) => {},
            InterfaceInfoAttributeV::GsoMaxSize(_) => {},
            InterfaceInfoAttributeV::Pad(_) => {},
            InterfaceInfoAttributeV::Xdp(_) => {},
            InterfaceInfoAttributeV::Event(_) => {},
            InterfaceInfoAttributeV::NewNetNamespaceId(_) => {},
            InterfaceInfoAttributeV::InterfaceNetNamespaceId(_) => {},
            InterfaceInfoAttributeV::TargetNetNamespaceId(_) => {},
            InterfaceInfoAttributeV::CarrierUpCount(_) => {},
            InterfaceInfoAttributeV::CarrierDownCount(_) => {},
            InterfaceInfoAttributeV::NewInterfaceIndex(x) => {
                lemma_cast_u32_i32(x);
            },
            InterfaceInfoAttributeV::MinMTU(_) => {},
            InterfaceInfoAttributeV::MaxMTU(_) => {},
            InterfaceInfoAttributeV::PropertiesList(_) => {},
            InterfaceInfoAttributeV::AlternativeName(_) => {},
            InterfaceInfoAttributeV::PermanentAddress(_) => {},
            InterfaceInfoAttributeV::ProtocolDownReason(_) => {},
            InterfaceInfoAttributeV::ParentDeviceName(s) => {
                encode_utf8_valid_utf8(s);
                encode_utf8_decode_utf8(s);
                assert((encode_utf8(s) + seq![0u8]).last() == 0u8);
                assert((encode_utf8(s) + seq![0u8]).drop_last() =~= encode_utf8(s));
            },
            InterfaceInfoAttributeV::ParentDeviceBusName(s) => {
                encode_utf8_valid_utf8(s);
                encode_utf8_decode_utf8(s);
                assert((encode_utf8(s) + seq![0u8]).last() == 0u8);
                assert((encode_utf8(s) + seq![0u8]).drop_last() =~= encode_utf8(s));
            },
            InterfaceInfoAttributeV::GroMaxSize(_) => {},
            InterfaceInfoAttributeV::TsoMaxSize(_) => {},
            InterfaceInfoAttributeV::TsoMaxSegments(_) => {},
            InterfaceInfoAttributeV::AllMulti(_) => {},
            InterfaceInfoAttributeV::Other(_, _) => {},
        }
    }

    fn from_raw(raw: RawAttribute) -> (r: Result<InterfaceInfoAttribute, NetlinkError>) {
        let tag = raw.attr_type();
        let content = raw.into_payload();
        if tag == 0u16 {
            Ok(InterfaceInfoAttribute::Unspecified(content))
        } else if tag == 1u16 {
            Ok(InterfaceInfoAttribute::Address(content))
        } else if tag == 2u16 {
            Ok(InterfaceInfoAttribute::Broadcast(content))
        } else if tag == 3u16 {
            if content.len() >= 1 && content[content.len() - 1] == 0u8 {
                let stripped = slice_to_vec(slice_subrange(content.as_slice(), 0, content.len() - 1));
                proof {
                    assert(stripped@ =~= content@.drop_last());
                }
                match string_from_utf8(stripped) {
                    Some(s) => Ok(InterfaceInfoAttribute::InterfaceName(s)),
                    None => Err(NetlinkError::BadString),
                }
            } else {
                Err(NetlinkError::BadString)
            }
        } else if tag == 4u16 {
            if content.len() == 4 {
                Ok(InterfaceInfoAttribute::MTU(u32_from_le_bytes(content.as_slice())))
            } else {
                Err(NetlinkError::BadAttribute)
            }
        } else if tag == 5u16 {
            if content.len() == 4 {
                Ok(InterfaceInfoAttribute::Link(u32_from_le_bytes(content.as_slice()) as i32))
            } else {
                Err(NetlinkError::BadAttribute)
            }
        } else if tag == 6u16 {
            if content.len() >= 1 && content[content.len() - 1] == 0u8 {
                let stripped = slice_to_vec(slice_subrange(content.as_slice(), 0, content.len() - 1));
                proof {
                    assert(stripped@ =~= content@.drop_last());
                }
                match string_from_utf8(stripped) {
                    Some(s) => Ok(InterfaceInfoAttribute::QueueDiscipline(s)),
                    None => Err(NetlinkError::BadString),
                }
            } else {
                Err(NetlinkError::BadString)
            }
        } else if tag == 7u16 {
            if content.len() == 96 {
                Ok(InterfaceInfoAttribute::Stats(InterfaceStats::deserialize(content.as_slice())))
            } else {
                Err(NetlinkError::BadAttribute)
            }
        } else if tag == 8u16 {
            Ok(InterfaceInfoAttribute::Cost(content))
        } else if tag == 9u16 {
            Ok(InterfaceInfoAttribute::Priority(content))
        } else if tag == 10u16 {
            Ok(InterfaceInfoAttribute::Master(content))
        } else if tag == 11u16 {
            Ok(InterfaceInfoAttribute::Wireless(content))
        } else if tag == 12u16 {
            Ok(InterfaceInfoAttribute::ProtocolInfo(content))
        } else if tag == 13u16 {
            if content.len() == 4 {
                Ok(InterfaceInfoAttribute::TxQueueLength(u32_from_le_bytes(content.as_slice())))
            } else {
                Err(NetlinkError::BadAttribute)
            }
        } else if tag == 14u16 {
            Ok(InterfaceInfoAttribute::DeviceMap(content))
        } else if tag == 15u16 {
            Ok(InterfaceInfoAttribute::Weight(content))
        } else if tag == 16u16 {
            if content.len() == 1 {
                Ok(InterfaceInfoAttribute::OperationalState(content[0]))
            } else {
                Err(NetlinkError::BadAttribute)
            }
        } else if tag == 17u16 {
            if content.len() == 1 {
                Ok(InterfaceInfoAttribute::LinkMode(content[0]))
            } else {
                Err(NetlinkError::BadAttribute)
            }
        } else if tag == 18u16 {
            proof {
                assert(content@.skip(0) =~= content@);
            }
            match parse_attrs_exec::<LinkInfo>(content.as_slice(), 0) {
                Ok(items) => Ok(InterfaceInfoAttribute::LinkInfo(items)),
                Err(e) => Err(e),
            }
        } else if tag == 19u16 {
            Ok(InterfaceInfoAttribute::NetNamespacePid(content))
        } else if tag == 20u16 {
            if content.len() >= 1 && content[content.len() - 1] == 0u8 {
                let stripped = slice_to_vec(slice_subrange(content.as_slice(), 0, content.len() - 1));
                proof {
                    assert(stripped@ =~= content@.drop_last());
                }
                match string_from_utf8(stripped) {
                    Some(s) => Ok(InterfaceInfoAttribute::InterfaceAlias(s)),
                    None => Err(NetlinkError::BadString),
                }
            } else {
                Err(NetlinkError::BadString)
            }
        } else if tag == 21u16 {
            if content.len() == 4 {
                Ok(InterfaceInfoAttribute::NumVf(u32_from_le_bytes(content.as_slice())))
            } else {
                Err(NetlinkError::BadAttribute)
            }
        } else if tag == 22u16 {
            Ok(InterfaceInfoAttribute::VfInfoList(content))
        } else if tag == 23u16 {
            if content.len() == 200 {
                Ok(InterfaceInfoAttribute::Stats64(InterfaceStats64::deserialize(content.as_slice())))
            } else {
                Err(NetlinkError::BadAttribute)
            }
        } else if tag == 24u16 {
            Ok(InterfaceInfoAttribute::VfPorts(content))
        } else if tag == 25u16 {
            Ok(InterfaceInfoAttribute::PortSelf(content))
        } else if tag == 26u16 {
            proof {
                assert(content@.skip(0) =~= content@);
            }
            match parse_attrs_exec::<AddressFamilySpecific>(content.as_slice(), 0) {
                Ok(items) => Ok(InterfaceInfoAttribute::AddressFamilySpecific(items)),
                Err(e) => Err(e),
            }
        } else if tag == 27u16 {
            if content.len() == 4 {
                Ok(InterfaceInfoAttribute::Group(u32_from_le_bytes(content.as_slice())))
            } else {
                Err(NetlinkError::BadAttribute)
            }
        } else if tag == 28u16 {
            Ok(InterfaceInfoAttribute::NetNamespaceFd(content))
        } else if tag == 29u16 {
            Ok(InterfaceInfoAttribute::ExtMask(content))
        } else if tag == 30u16 {
            if content.len() == 4 {
                Ok(InterfaceInfoAttribute::Promiscuity(u32_from_le_bytes(content.as_slice())))
            } else {
                Err(NetlinkError::BadAttribute)
            }
        } else if tag == 31u16 {
            if content.len() == 4 {
                Ok(InterfaceInfoAttribute::NumTxQueues(u32_from_le_bytes(content.as_slice())))
            } else {
                Err(NetlinkError::BadAttribute)
            }
        } else if tag == 32u16 {
            if content.len() == 4 {
                Ok(InterfaceInfoAttribute::NumRxQueues(u32_from_le_bytes(content.as_slice())))
            } else {
                Err(NetlinkError::BadAttribute)
            }
        } else if tag == 33u16 {
            Ok(InterfaceInfoAttribute::Carrier(content))
        } else if tag == 34u16 {
            Ok(InterfaceInfoAttribute::PhysicalPortId(content))
        } else if tag == 35u16 {
            if content.len() == 4 {
                Ok(InterfaceInfoAttribute::CarrierChanges(u32_from_le_bytes(content.as_slice())))
            } else {
                Err(NetlinkError::BadAttribute)
            }
        } else if tag == 36u16 {
            Ok(InterfaceInfoAttribute::PhysicalSwitchId(content))
        } else if tag == 37u16 {
            Ok(InterfaceInfoAttribute::LinkNetNamespaceId(content))
        } else if tag == 38u16 {
            Ok(InterfaceInfoAttribute::PhysicalPortName(content))
        } else if tag == 39u16 {
            Ok(InterfaceInfoAttribute::ProtocolDown(content))
        } else if tag == 40u16 {
            if content.len() == 4 {
                Ok(InterfaceInfoAttribute::GsoMaxSegments(u32_from_le_bytes(content.as_slice())))
            } else {
                Err(NetlinkError::BadAttribute)
            }
        } else if tag == 41u16 {
            if content.len() == 4 {
                Ok(InterfaceInfoAttribute::GsoMaxSize(u32_from_le_bytes(content.as_slice())))
            } else {
                Err(NetlinkError::BadAttribute)
            }
        } else if tag == 42u16 {
            Ok(InterfaceInfoAttribute::Pad(content))
        } else if tag == 43u16 {
            Ok(InterfaceInfoAttribute::Xdp(content))
        } else if tag == 44u16 {
            Ok(InterfaceInfoAttribute::Event(content))
        } else if tag == 45u16 {
            Ok(InterfaceInfoAttribute::NewNetNamespaceId(content))
        } else if tag == 46u16 {
            Ok(InterfaceInfoAttribute::InterfaceNetNamespaceId(content))
        } else if tag == 47u16 {
            if content.len() == 4 {
                Ok(InterfaceInfoAttribute::CarrierUpCount(u32_from_le_bytes(content.as_slice())))
            } else {
                Err(NetlinkError::BadAttribute)
            }
        } else if tag == 48u16 {
            if content.len() == 4 {
                Ok(InterfaceInfoAttribute::CarrierDownCount(u32_from_le_bytes(content.as_slice())))
            } else {
                Err(NetlinkError::BadAttribute)
            }
        } else if tag == 49u16 {
            if content.len() == 4 {
                Ok(InterfaceInfoAttribute::NewInterfaceIndex(u32_from_le_bytes(content.as_slice()) as i32))
            } else {
                Err(NetlinkError::BadAttribute)
            }
        } else if tag == 50u16 {
            if content.len() == 4 {
                Ok(InterfaceInfoAttribute::MinMTU(u32_from_le_bytes(content.as_slice())))
            } else {
                Err(NetlinkError::BadAttribute)
            }
        } else if tag == 51u16 {
            if content.len() == 4 {
                Ok(InterfaceInfoAttribute::MaxMTU(u32_from_le_bytes(content.as_slice())))
            } else {
                Err(NetlinkError::BadAttribute)
            }
        } else if tag == 52u16 {
            Ok(InterfaceInfoAttribute::PropertiesList(content))
        } else if tag == 53u16 {
            Ok(InterfaceInfoAttribute::AlternativeName(content))
        } else if tag == 54u16 {
            Ok(InterfaceInfoAttribute::PermanentAddress(content))
        } else if tag == 55u16 {
            Ok(InterfaceInfoAttribute::ProtocolDownReason(content))
        } else if tag == 56u16 {
            if content.len() >= 1 && content[content.len() - 1] == 0u8 {
                let stripped = slice_to_vec(slice_subrange(content.as_slice(), 0, content.len() - 1));
                proof {
                    assert(stripped@ =~= content@.drop_last());
                }
                match string_from_utf8(stripped) {
                    Some(s) => Ok(InterfaceInfoAttribute::ParentDeviceName(s)),
                    None => Err(NetlinkError::BadString),
                }
            } else {
                Err(NetlinkError::BadString)
            }
        } else if tag == 57u16 {
            if content.len() >= 1 && content[content.len() - 1] == 0u8 {
                let stripped = slice_to_vec(slice_subrange(content.as_slice(), 0, content.len() - 1));
                proof {
                    assert(stripped@ =~= content@.drop_last());
                }
                match string_from_utf8(stripped) {
                    Some(s) => Ok(InterfaceInfoAttribute::ParentDeviceBusName(s)),
                    None => Err(NetlinkError::BadString),
                }
            } else {
                Err(NetlinkError::BadString)
            }
        } else if tag == 58u16 {
            if content.len() == 4 {
                Ok(InterfaceInfoAttribute::GroMaxSize(u32_from_le_bytes(content.as_slice())))
            } else {
                Err(NetlinkError::BadAttribute)
            }
        } else if tag == 59u16 {
            if content.len() == 4 {
                Ok(InterfaceInfoAttribute::TsoMaxSize(u32_from_le_bytes(content.as_slice())))
            } else {
                Err(NetlinkError::BadAttribute)
            }
        } else if tag == 60u16 {
            if content.len() == 4 {
                Ok(InterfaceInfoAttribute::TsoMaxSegments(u32_from_le_bytes(content.as_slice())))
            } else {
                Err(NetlinkError::BadAttribute)
            }
        } else if tag == 61u16 {
            if content.len() == 4 {
                Ok(InterfaceInfoAttribute::AllMulti(u32_from_le_bytes(content.as_slice())))
            } else {
                Err(NetlinkError::BadAttribute)
            }
        } else {
            Ok(InterfaceInfoAttribute::Other(tag, content))
        }
    }

    fn serialize_into(&self, buffer: &mut Vec<u8>) -> (r: Result<(), NetlinkError>) {
        proof {
            lemma_auto_spec_u16_to_from_le_bytes();
            lemma_auto_spec_u32_to_from_le_bytes();
        }
        match self {
            InterfaceInfoAttribute::Unspecified(content) => serialize_attribute_into(buffer, 0u16, content.as_slice()),
            InterfaceInfoAttribute::Address(content) => serialize_attribute_into(buffer, 1u16, content.as_slice()),
            InterfaceInfoAttribute::Broadcast(content) => serialize_attribute_into(buffer, 2u16, content.as_slice()),
            InterfaceInfoAttribute::InterfaceName(s) => {
                let mut body = s.as_str().as_bytes_vec();
                body.push(0u8);
                proof {
                    assert(body@ =~= encode_utf8(s@) + seq![0u8]);
                }
                serialize_attribute_into(buffer, 3u16, body.as_slice())
            },
            InterfaceInfoAttribute::MTU(x) => {
                let body = u32_to_le_bytes(*x);
                serialize_attribute_into(buffer, 4u16, body.as_slice())
            },
            InterfaceInfoAttribute::Link(x) => {
                let body = u32_to_le_bytes(*x as u32);
                serialize_attribute_into(buffer, 5u16, body.as_slice())
            },
            InterfaceInfoAttribute::QueueDiscipline(s) => {
                let mut body = s.as_str().as_bytes_vec();
                body.push(0u8);
                proof {
                    assert(body@ =~= encode_utf8(s@) + seq![0u8]);
                }
                serialize_attribute_into(buffer, 6u16, body.as_slice())
            },
            InterfaceInfoAttribute::Stats(st) => {
                let body = st.serialize();
                proof {
                    st.lemma_bytes_len();
                }
                serialize_attribute_into(buffer, 7u16, body.as_slice())
            },
            InterfaceInfoAttribute::Cost(content) => serialize_attribute_into(buffer, 8u16, content.as_slice()),
            InterfaceInfoAttribute::Priority(content) => serialize_attribute_into(buffer, 9u16, content.as_slice()),
            InterfaceInfoAttribute::Master(content) => serialize_attribute_into(buffer, 10u16, content.as_slice()),
            InterfaceInfoAttribute::Wireless(content) => serialize_attribute_into(buffer, 11u16, content.as_slice()),
            InterfaceInfoAttribute::ProtocolInfo(content) => serialize_attribute_into(buffer, 12u16, content.as_slice()),
            InterfaceInfoAttribute::TxQueueLength(x) => {
                let body = u32_to_le_bytes(*x);
                serialize_attribute_into(buffer, 13u16, body.as_slice())
            },
            InterfaceInfoAttribute::DeviceMap(content) => serialize_attribute_into(buffer, 14u16, content.as_slice()),
            InterfaceInfoAttribute::Weight(content) => serialize_attribute_into(buffer, 15u16, content.as_slice()),
            InterfaceInfoAttribute::OperationalState(x) => {
                let mut body: Vec<u8> = Vec::new();
                body.push(*x);
                proof {
                    assert(body@ =~= seq![*x]);
                }
                serialize_attribute_into(buffer, 16u16, body.as_slice())
            },
            InterfaceInfoAttribute::LinkMode(x) => {
                let mut body: Vec<u8> = Vec::new();
                body.push(*x);
                proof {
                    assert(body@ =~= seq![*x]);
                }
                serialize_attribute_into(buffer, 17u16, body.as_slice())
            },
            InterfaceInfoAttribute::LinkInfo(items) => {
                let mut body: Vec<u8> = Vec::new();
                match serialize_attrs::<LinkInfo>(&mut body, items) {
                    Ok(()) => serialize_attribute_into(buffer, 18u16, body.as_slice()),
                    Err(e) => Err(e),
                }
            },
            InterfaceInfoAttribute::NetNamespacePid(content) => serialize_attribute_into(buffer, 19u16, content.as_slice()),
            InterfaceInfoAttribute::InterfaceAlias(s) => {
                let mut body = s.as_str().as_bytes_vec();
                body.push(0u8);
                proof {
                    assert(body@ =~= encode_utf8(s@) + seq![0u8]);
                }
                serialize_attribute_into(buffer, 20u16, body.as_slice())
            },
            InterfaceInfoAttribute::NumVf(x) => {
                let body = u32_to_le_bytes(*x);
                serialize_attribute_into(buffer, 21u16, body.as_slice())
            },
            InterfaceInfoAttribute::VfInfoList(content) => serialize_attribute_into(buffer, 22u16, content.as_slice()),
            InterfaceInfoAttribute::Stats64(st) => {
                let body = st.serialize();
                proof {
                    st.lemma_bytes_len();
                }
                serialize_attribute_into(buffer, 23u16, body.as_slice())
            },
            InterfaceInfoAttribute::VfPorts(content) => serialize_attribute_into(buffer, 24u16, content.as_slice()),
            InterfaceInfoAttribute::PortSelf(content) => serialize_attribute_into(buffer, 25u16, content.as_slice()),
            InterfaceInfoAttribute::AddressFamilySpecific(items) => {
                let mut body: Vec<u8> = Vec::new();
                match serialize_attrs::<AddressFamilySpecific>(&mut body, items) {
                    Ok(()) => serialize_attribute_into(buffer, 26u16, body.as_slice()),
                    Err(e) => Err(e),
                }
            },
            InterfaceInfoAttribute::Group(x) => {
                let body = u32_to_le_bytes(*x);
                serialize_attribute_into(buffer, 27u16, body.as_slice())
            },
            InterfaceInfoAttribute::NetNamespaceFd(content) => serialize_attribute_into(buffer, 28u16, content.as_slice()),
            InterfaceInfoAttribute::ExtMask(content) => serialize_attribute_into(buffer, 29u16, content.as_slice()),
            InterfaceInfoAttribute::Promiscuity(x) => {
                let body = u32_to_le_bytes(*x);
                serialize_attribute_into(buffer, 30u16, body.as_slice())
            },
            InterfaceInfoAttribute::NumTxQueues(x) => {
                let body = u32_to_le_bytes(*x);
                serialize_attribute_into(buffer, 31u16, body.as_slice())
            },
            InterfaceInfoAttribute::NumRxQueues(x) => {
                let body = u32_to_le_bytes(*x);
                serialize_attribute_into(buffer, 32u16, body.as_slice())
            },
            InterfaceInfoAttribute::Carrier(content) => serialize_attribute_into(buffer, 33u16, content.as_slice()),
            InterfaceInfoAttribute::PhysicalPortId(content) => serialize_attribute_into(buffer, 34u16, content.as_slice()),
            InterfaceInfoAttribute::CarrierChanges(x) => {
                let body = u32_to_le_bytes(*x);
                serialize_attribute_into(buffer, 35u16, body.as_slice())
            },
            InterfaceInfoAttribute::PhysicalSwitchId(content) => serialize_attribute_into(buffer, 36u16, content.as_slice()),
            InterfaceInfoAttribute::LinkNetNamespaceId(content) => serialize_attribute_into(buffer, 37u16, content.as_slice()),
            InterfaceInfoAttribute::PhysicalPortName(content) => serialize_attribute_into(buffer, 38u16, content.as_slice()),
            InterfaceInfoAttribute::ProtocolDown(content) => serialize_attribute_into(buffer, 39u16, content.as_slice()),
            InterfaceInfoAttribute::GsoMaxSegments(x) => {
                let body = u32_to_le_bytes(*x);
                serialize_attribute_into(buffer, 40u16, body.as_slice())
            },
            InterfaceInfoAttribute::GsoMaxSize(x) => {
                let body = u32_to_le_bytes(*x);
                serialize_attribute_into(buffer, 41u16, body.as_slice())
            },
            InterfaceInfoAttribute::Pad(content) => serialize_attribute_into(buffer, 42u16, content.as_slice()),
            InterfaceInfoAttribute::Xdp(content) => serialize_attribute_into(buffer, 43u16, content.as_slice()),
            InterfaceInfoAttribute::Event(content) => serialize_attribute_into(buffer, 44u16, content.as_slice()),
            InterfaceInfoAttribute::NewNetNamespaceId(content) => serialize_attribute_into(buffer, 45u16, content.as_slice()),
            InterfaceInfoAttribute::InterfaceNetNamespaceId(content) => serialize_attribute_into(buffer, 46u16, content.as_slice()),
            InterfaceInfoAttribute::TargetNetNamespaceId(content) => serialize_attribute_into(buffer, 46u16, content.as_slice()),
            InterfaceInfoAttribute::CarrierUpCount(x) => {
                let body = u32_to_le_bytes(*x);
                serialize_attribute_into(buffer, 47u16, body.as_slice())
            },
            InterfaceInfoAttribute::CarrierDownCount(x) => {
                let body = u32_to_le_bytes(*x);
                serialize_attribute_into(buffer, 48u16, body.as_slice())
            },
            InterfaceInfoAttribute::NewInterfaceIndex(x) => {
                let body = u32_to_le_bytes(*x as u32);
                serialize_attribute_into(buffer, 49u16, body.as_slice())
            },
            InterfaceInfoAttribute::MinMTU(x) => {
                let body = u32_to_le_bytes(*x);
                serialize_attribute_into(buffer, 50u16, body.as_slice())
            },
            InterfaceInfoAttribute::MaxMTU(x) => {
                let body = u32_to_le_bytes(*x);
                serialize_attribute_into(buffer, 51u16, body.as_slice())
            },
            InterfaceInfoAttribute::PropertiesList(content) => serialize_attribute_into(buffer, 52u16, content.as_slice()),
            InterfaceInfoAttribute::AlternativeName(content) => serialize_attribute_into(buffer, 53u16, content.as_slice()),
            InterfaceInfoAttribute::PermanentAddress(content) => serialize_attribute_into(buffer, 54u16, content.as_slice()),
            InterfaceInfoAttribute::ProtocolDownReason(content) => serialize_attribute_into(buffer, 55u16, content.as_slice()),
            InterfaceInfoAttribute::ParentDeviceName(s) => {
                let mut body = s.as_str().as_bytes_vec();
                body.push(0u8);
                proof {
                    assert(body@ =~= encode_utf8(s@) + seq![0u8]);
                }
                serialize_attribute_into(buffer, 56u16, body.as_slice())
            },
            InterfaceInfoAttribute::ParentDeviceBusName(s) => {
                let mut body = s.as_str().as_bytes_vec();
                body.push(0u8);
                proof {
                    assert(body@ =~= encode_utf8(s@) + seq![0u8]);
                }
                serialize_attribute_into(buffer, 57u16, body.as_slice())
            },
            InterfaceInfoAttribute::GroMaxSize(x) => {
                let body = u32_to_le_bytes(*x);
                serialize_attribute_into(buffer, 58u16, body.as_slice())
            },
            InterfaceInfoAttribute::TsoMaxSize(x) => {
                let body = u32_to_le_bytes(*x);
                serialize_attribute_into(buffer, 59u16, body.as_slice())
            },
            InterfaceInfoAttribute::TsoMaxSegments(x) => {
                let body = u32_to_le_bytes(*x);
                serialize_attribute_into(buffer, 60u16, body.as_slice())
            },
            InterfaceInfoAttribute::AllMulti(x) => {
                let body = u32_to_le_bytes(*x);
                serialize_attribute_into(buffer, 61u16, body.as_slice())
            },
            InterfaceInfoAttribute::Other(t, content) => serialize_attribute_into(buffer, *t, content.as_slice()),
        }
    }
}

impl InterfaceInfoAttribute {
    /// The framed attribute on its own: length, tag, payload and
    /// padding.
    pub fn serialize(&self) -> (r: Result<Vec<u8>, NetlinkError>)
        ensures
            match r {
                Ok(v) => InterfaceInfoAttribute::spec_enc_ok(self@) && v@ == spec_tlv(
                    InterfaceInfoAttribute::spec_tag(self@),
                    InterfaceInfoAttribute::spec_body(self@),
                ),
                Err(e) => e == NetlinkError::AttributeTooLong && !InterfaceInfoAttribute::spec_enc_ok(self@),
            },
    {
        let mut buffer: Vec<u8> = Vec::new();
        match self.serialize_into(&mut buffer) {
            Ok(()) => Ok(buffer),
            Err(e) => Err(e),
        }
    }
}

} // verus!