//! The QoS-Rules information element.
//!
//! The IE is a 2-octet total length followed by a list of rule records. Each
//! record carries a rule identifier, a declared rule length, a packed octet
//! (filter count, DQR bit, operation code) and, depending on the operation
//! code, one of three packet-filter-list shapes, then a precedence octet and
//! a flow-identifier octet. The spec-level model (`spec_decode_qos_rules`)
//! defines the decoded value of every well-formed byte sequence and the
//! error for every malformed one; the executable decoder is proved to return
//! exactly that.

use vstd::prelude::*;

use crate::bytes::{be16, DecodeError};

verus! {

/// The outer QoS-Rules IE: its declared total length and the decoded rules.
#[derive(Debug, Clone, PartialEq)]
pub struct QOSRules {
    pub lengthofqosrulesie: u16,
    pub qosrulesie: Vec<QOSRulesIE>,
}

/// One QoS rule record.
#[derive(Debug, Clone, PartialEq)]
pub struct QOSRulesIE {
    pub qosruleidentifer: u8,
    pub lengthof_qo_srule: u16,
    pub numberofpacketfilters: u8,
    pub dqrbit: u8,
    pub ruleoperationcode: RuleOperationCode,
    pub packetfilterlist: PacketFilterListEnum,
    pub qosruleprecedence: u8,
    pub qosflowidentifer: u8,
    pub segregation: u8,
    pub spare: u8,
}

/// Rule operation code: bits 8 to 6 of the rule's packed octet.
#[derive(Debug, Clone, Copy, PartialEq, Eq, Structural)]
pub enum RuleOperationCode {
    Reserved,
    CreateNewQosRule,
    DeleteExistingQosRule,
    ModifyExistingQosRuleAndAddPackerFilters,
    ModifyExistingQosRuleAndReplacePackerFilters,
    ModifyExistingQosRuleAndDeletePackerFilters,
    ModifyExistingQosRuleWithoutModifyPackerFilters,
}

/// The operation code named by a 3-bit field value.
pub open spec fn spec_rule_operation_code(code: u8) -> RuleOperationCode {
    if code == 1 {
        RuleOperationCode::CreateNewQosRule
    } else if code == 2 {
        RuleOperationCode::DeleteExistingQosRule
    } else if code == 3 {
        RuleOperationCode::ModifyExistingQosRuleAndAddPackerFilters
    } else if code == 4 {
        RuleOperationCode::ModifyExistingQosRuleAndReplacePackerFilters
    } else if code == 5 {
        RuleOperationCode::ModifyExistingQosRuleAndDeletePackerFilters
    } else if code == 6 {
        RuleOperationCode::ModifyExistingQosRuleWithoutModifyPackerFilters
    } else {
        RuleOperationCode::Reserved
    }
}

impl RuleOperationCode {
    /// Map a 3-bit operation-code field to its named value; the two codes
    /// outside the six defined ones map to `Reserved`.
    pub fn from_u8(data: u8) -> (r: RuleOperationCode)
        ensures
            r == spec_rule_operation_code(data),
    {
        match data {
            1 => RuleOperationCode::CreateNewQosRule,
            2 => RuleOperationCode::DeleteExistingQosRule,
            3 => RuleOperationCode::ModifyExistingQosRuleAndAddPackerFilters,
            4 => RuleOperationCode::ModifyExistingQosRuleAndReplacePackerFilters,
            5 => RuleOperationCode::ModifyExistingQosRuleAndDeletePackerFilters,
            6 => RuleOperationCode::ModifyExistingQosRuleWithoutModifyPackerFilters,
            _ => RuleOperationCode::Reserved,
        }
    }
}

/// The packet-filter list of a rule: the shape is fully determined by the
/// rule's operation code.
#[derive(Debug, Clone, PartialEq)]
pub enum PacketFilterListEnum {
    PacketFilterListDeletePFList(PacketFilterListDeletePFList),
    PacketFilterListUpdatePFList(PacketFilterListUpdatePFList),
    PacketFilterListOpOnePF(PacketFilterSingle),
    PacketFilterNone,
}

/// A single packet-filter identifier.
#[derive(Debug, Clone, PartialEq)]
pub struct PacketFilterSingle {
    pub packet_fliter_id: u8,
}

/// The "delete packet filters" shape: a list of 4-bit filter identifiers.
#[derive(Debug, Clone, PartialEq)]
pub struct PacketFilterListDeletePFList {
    pub packet_fliter_id: Vec<u8>,
}

/// The "create / add / replace" shape: direction and identifier of the
/// filter, the declared content length, and the decoded components.
#[derive(Debug, Clone, PartialEq)]
pub struct PacketFilterListUpdatePFList {
    pub packet_filter_direction: u8,
    pub packet_filter_id: u8,
    pub length_packet_filter_contents: u8,
    pub packet_filter_content_list: Vec<PacketFilterContent>,
}

/// One packet-filter component: its type tag and the matching typed value.
#[derive(Debug, Clone, PartialEq)]
pub struct PacketFilterContent {
    pub packet_filter_content_type: PacketFilterComponentType,
    pub packet_filter_content_value: PacketFilterComponentValue,
}

/// Packet-filter component type tags. A tag outside the table decodes to
/// `Reserved`, which the decoder reports as `UnknownComponentType`.
#[derive(Debug, Clone, Copy, PartialEq, Eq, Structural)]
pub enum PacketFilterComponentType {
    MatchAll,
    IPv4RemoteAddress,
    IPv4LocalAddress,
    IPv6RemoteAddressPrefixLength,
    IPv6LocalAddressPrefixLength,
    ProtocolIdentifierNextHeader,
    SingleLocalPort,
    LocalPortRange,
    SingleRemotePort,
    RemotePortRange,
    SecurityParameterIndex,
    TypeOfServiceTrafficClass,
    FlowLabel,
    DestinationMACAddress,
    SourceMACAddress,
    VlanCtagVid,
    VlanStagVid,
    VlanCtagPcpdei,
    VlanStagPcpdei,
    Ethertype,
    DestinationMACAddressRange,
    SourceMACAddressRange,
    Reserved,
}

/// The component type named by a component tag octet.
pub open spec fn spec_component_type(tag: u8) -> PacketFilterComponentType {
    if tag == 0x01 {
        PacketFilterComponentType::MatchAll
    } else if tag == 0x09 {
        PacketFilterComponentType::IPv4RemoteAddress
    } else if tag == 0x0a {
        PacketFilterComponentType::IPv4LocalAddress
    } else if tag == 0x0c {
        PacketFilterComponentType::IPv6RemoteAddressPrefixLength
    } else if tag == 0x0f {
        PacketFilterComponentType::IPv6LocalAddressPrefixLength
    } else if tag == 0x10 {
        PacketFilterComponentType::ProtocolIdentifierNextHeader
    } else if tag == 0x11 {
        PacketFilterComponentType::SingleLocalPort
    } else if tag == 0x12 {
        PacketFilterComponentType::LocalPortRange
    } else if tag == 0x13 {
        PacketFilterComponentType::SingleRemotePort
    } else if tag == 0x14 {
        PacketFilterComponentType::RemotePortRange
    } else if tag == 0x18 {
        PacketFilterComponentType::SecurityParameterIndex
    } else if tag == 0x19 {
        PacketFilterComponentType::TypeOfServiceTrafficClass
    } else if tag == 0x20 {
        PacketFilterComponentType::FlowLabel
    } else if tag == 0x21 {
        PacketFilterComponentType::DestinationMACAddress
    } else if tag == 0x22 {
        PacketFilterComponentType::SourceMACAddress
    } else if tag == 0x23 {
        PacketFilterComponentType::VlanCtagVid
    } else if tag == 0x24 {
        PacketFilterComponentType::VlanStagVid
    } else if tag == 0x25 {
        PacketFilterComponentType::VlanCtagPcpdei
    } else if tag == 0x26 {
        PacketFilterComponentType::VlanStagPcpdei
    } else if tag == 0x27 {
        PacketFilterComponentType::Ethertype
    } else if tag == 0x28 {
        PacketFilterComponentType::DestinationMACAddressRange
    } else if tag == 0x29 {
        PacketFilterComponentType::SourceMACAddressRange
    } else {
        PacketFilterComponentType::Reserved
    }
}

impl PacketFilterComponentType {
    /// Map a component tag octet to its named type; a tag outside the table
    /// maps to `Reserved`.
    pub fn from_u8(data: u8) -> (r: PacketFilterComponentType)
        ensures
            r == spec_component_type(data),
    {
        match data {
            0x01 => PacketFilterComponentType::MatchAll,
            0x09 => PacketFilterComponentType::IPv4RemoteAddress,
            0x0a => PacketFilterComponentType::IPv4LocalAddress,
            0x0c => PacketFilterComponentType::IPv6RemoteAddressPrefixLength,
            0x0f => PacketFilterComponentType::IPv6LocalAddressPrefixLength,
            0x10 => PacketFilterComponentType::ProtocolIdentifierNextHeader,
            0x11 => PacketFilterComponentType::SingleLocalPort,
            0x12 => PacketFilterComponentType::LocalPortRange,
            0x13 => PacketFilterComponentType::SingleRemotePort,
            0x14 => PacketFilterComponentType::RemotePortRange,
            0x18 => PacketFilterComponentType::SecurityParameterIndex,
            0x19 => PacketFilterComponentType::TypeOfServiceTrafficClass,
            0x20 => PacketFilterComponentType::FlowLabel,
            0x21 => PacketFilterComponentType::DestinationMACAddress,
            0x22 => PacketFilterComponentType::SourceMACAddress,
            0x23 => PacketFilterComponentType::VlanCtagVid,
            0x24 => PacketFilterComponentType::VlanStagVid,
            0x25 => PacketFilterComponentType::VlanCtagPcpdei,
            0x26 => PacketFilterComponentType::VlanStagPcpdei,
            0x27 => PacketFilterComponentType::Ethertype,
            0x28 => PacketFilterComponentType::DestinationMACAddressRange,
            0x29 => PacketFilterComponentType::SourceMACAddressRange,
            _ => PacketFilterComponentType::Reserved,
        }
    }
}

/// A packet-filter component value; the variant always matches the
/// component's type tag.
#[derive(Debug, Clone, PartialEq)]
pub enum PacketFilterComponentValue {
    MatchAll,
    IPv4RemoteAddress(IPv4FilterAddress),
    IPv4LocalAddress(IPv4FilterAddress),
    IPv6RemoteAddressPrefixLength(IPv6FilterAddress),
    IPv6LocalAddressPrefixLength(IPv6FilterAddress),
    ProtocolIdentifierNextHeader(ProtocolIdentifierNextHeader),
    SingleLocalPort(Port),
    LocalPortRange(PortRange),
    SingleRemotePort(Port),
    RemotePortRange(PortRange),
    SecurityParameterIndex(SecurityParameterIndex),
    TypeOfServiceTrafficClass(TypeOfServiceTrafficClass),
    FlowLabel(FlowLabel),
    DestinationMACAddress(MACAddress),
    SourceMACAddress(MACAddress),
    VlanCtagVid(VlanCtagVid),
    VlanStagVid(VlanStagVid),
    VlanCtagPcpdei(VlanCtagPcpdei),
    VlanStagPcpdei(VlanStagPcpdei),
    Ethertype(Ethertype),
    DestinationMACAddressRange(DestinationMACAddressRange),
    SourceMACAddressRange(SourceMACAddressRange),
}

/// A four-octet IPv4 address with its four-octet mask.
#[derive(Debug, Clone, PartialEq)]
pub struct IPv4FilterAddress {
    pub ipv4_address: Vec<u8>,
    pub ipv4_address_mask: Vec<u8>,
}

/// A sixteen-octet IPv6 address with a one-octet prefix length.
#[derive(Debug, Clone, PartialEq)]
pub struct IPv6FilterAddress {
    pub ipv6_address: Vec<u8>,
    pub prefix_length: u8,
}

/// The IPv4 protocol identifier or IPv6 next header, one octet.
#[derive(Debug, Clone, Copy, PartialEq, Eq, Structural)]
pub struct ProtocolIdentifierNextHeader {
    pub value: u8,
}

/// A single port number, two octets.
#[derive(Debug, Clone, Copy, PartialEq, Eq, Structural)]
pub struct Port {
    pub value: u16,
}

/// A port range: low limit first, then high limit.
#[derive(Debug, Clone, Copy, PartialEq, Eq, Structural)]
pub struct PortRange {
    pub low: u16,
    pub high: u16,
}

/// An IPSec security parameter index, four octets.
#[derive(Debug, Clone, Copy, PartialEq, Eq, Structural)]
pub struct SecurityParameterIndex {
    pub value: u32,
}

/// A type-of-service / traffic-class octet with its mask octet.
#[derive(Debug, Clone, Copy, PartialEq, Eq, Structural)]
pub struct TypeOfServiceTrafficClass {
    pub value: u8,
    pub mask: u8,
}

/// An IPv6 flow label: the low 20 bits of three octets.
#[derive(Debug, Clone, Copy, PartialEq, Eq, Structural)]
pub struct FlowLabel {
    pub value: u32,
}

/// A MAC address, six octets.
#[derive(Debug, Clone, PartialEq)]
pub struct MACAddress {
    pub value: Vec<u8>,
}

/// The VID of the customer-VLAN tag: the low 12 bits of two octets.
#[derive(Debug, Clone, Copy, PartialEq, Eq, Structural)]
pub struct VlanCtagVid {
    pub vid: u16,
}

/// The VID of the service-VLAN tag: the low 12 bits of two octets.
#[derive(Debug, Clone, Copy, PartialEq, Eq, Structural)]
pub struct VlanStagVid {
    pub vid: u16,
}

/// The PCP (bits 4 to 2) and DEI (bit 1) of the customer-VLAN tag.
#[derive(Debug, Clone, Copy, PartialEq, Eq, Structural)]
pub struct VlanCtagPcpdei {
    pub pcp: u8,
    pub dei: u8,
}

/// The PCP (bits 4 to 2) and DEI (bit 1) of the service-VLAN tag.
#[derive(Debug, Clone, Copy, PartialEq, Eq, Structural)]
pub struct VlanStagPcpdei {
    pub pcp: u8,
    pub dei: u8,
}

/// An ethertype, two octets.
#[derive(Debug, Clone, Copy, PartialEq, Eq, Structural)]
pub struct Ethertype {
    pub value: u16,
}

/// A destination MAC address range: six-octet low limit, six-octet high limit.
#[derive(Debug, Clone, PartialEq)]
pub struct DestinationMACAddressRange {
    pub low: Vec<u8>,
    pub high: Vec<u8>,
}

/// A source MAC address range: six-octet low limit, six-octet high limit.
#[derive(Debug, Clone, PartialEq)]
pub struct SourceMACAddressRange {
    pub low: Vec<u8>,
    pub high: Vec<u8>,
}

// ---------------------------------------------------------------------------
// Spec-level model of the QoS-Rules IE.
// ---------------------------------------------------------------------------

/// Spec-level value of a packet-filter component.
pub enum SpecFilterValue {
    MatchAll,
    Ipv4RemoteAddress { address: Seq<u8>, mask: Seq<u8> },
    Ipv4LocalAddress { address: Seq<u8>, mask: Seq<u8> },
    Ipv6RemoteAddressPrefixLength { address: Seq<u8>, prefix_length: u8 },
    Ipv6LocalAddressPrefixLength { address: Seq<u8>, prefix_length: u8 },
    ProtocolIdentifierNextHeader { value: u8 },
    SingleLocalPort { value: u16 },
    LocalPortRange { low: u16, high: u16 },
    SingleRemotePort { value: u16 },
    RemotePortRange { low: u16, high: u16 },
    SecurityParameterIndex { value: u32 },
    TypeOfServiceTrafficClass { value: u8, mask: u8 },
    FlowLabel { value: u32 },
    DestinationMacAddress { value: Seq<u8> },
    SourceMacAddress { value: Seq<u8> },
    VlanCtagVid { vid: u16 },
    VlanStagVid { vid: u16 },
    VlanCtagPcpdei { pcp: u8, dei: u8 },
    VlanStagPcpdei { pcp: u8, dei: u8 },
    Ethertype { value: u16 },
    DestinationMacAddressRange { low: Seq<u8>, high: Seq<u8> },
    SourceMacAddressRange { low: Seq<u8>, high: Seq<u8> },
}

/// Spec-level packet-filter component: type tag and value.
pub struct SpecComponent {
    pub ctype: PacketFilterComponentType,
    pub value: SpecFilterValue,
}

/// Spec-level packet-filter list.
pub enum SpecFilterList {
    DeleteList { ids: Seq<u8> },
    UpdateList { direction: u8, filter_id: u8, contents_len: u8, components: Seq<SpecComponent> },
    SinglePF { id: u8 },
    NoList,
}

/// Spec-level QoS rule record.
pub struct SpecRule {
    pub id: u8,
    pub rule_length: u16,
    pub filter_count: u8,
    pub dqr: u8,
    pub op: RuleOperationCode,
    pub filter_list: SpecFilterList,
    pub precedence: u8,
    pub flow_id: u8,
    pub segregation: u8,
    pub spare: u8,
}

/// Spec-level QoS-Rules IE.
pub struct SpecQosRules {
    pub total_length: u16,
    pub rules: Seq<SpecRule>,
}

/// The spec-level image of a decoded component list.
pub open spec fn view_components(l: Seq<PacketFilterContent>) -> Seq<SpecComponent> {
    l.map_values(|c: PacketFilterContent| c@)
}

/// The spec-level image of a decoded rule list.
pub open spec fn view_rules(l: Seq<QOSRulesIE>) -> Seq<SpecRule> {
    l.map_values(|r: QOSRulesIE| r@)
}

impl View for PacketFilterComponentValue {
    type V = SpecFilterValue;

    open spec fn view(&self) -> SpecFilterValue {
        match self {
            PacketFilterComponentValue::MatchAll => SpecFilterValue::MatchAll,
            PacketFilterComponentValue::IPv4RemoteAddress(a) => SpecFilterValue::Ipv4RemoteAddress {
                address: a.ipv4_address@,
                mask: a.ipv4_address_mask@,
            },
            PacketFilterComponentValue::IPv4LocalAddress(a) => SpecFilterValue::Ipv4LocalAddress {
                address: a.ipv4_address@,
                mask: a.ipv4_address_mask@,
            },
            PacketFilterComponentValue::IPv6RemoteAddressPrefixLength(a) => SpecFilterValue::Ipv6RemoteAddressPrefixLength {
                address: a.ipv6_address@,
                prefix_length: a.prefix_length,
            },
            PacketFilterComponentValue::IPv6LocalAddressPrefixLength(a) => SpecFilterValue::Ipv6LocalAddressPrefixLength {
                address: a.ipv6_address@,
                prefix_length: a.prefix_length,
            },
            PacketFilterComponentValue::ProtocolIdentifierNextHeader(v) => SpecFilterValue::ProtocolIdentifierNextHeader {
                value: v.value,
            },
            PacketFilterComponentValue::SingleLocalPort(p) => SpecFilterValue::SingleLocalPort {
                value: p.value,
            },
            PacketFilterComponentValue::LocalPortRange(p) => SpecFilterValue::LocalPortRange {
                low: p.low,
                high: p.high,
            },
            PacketFilterComponentValue::SingleRemotePort(p) => SpecFilterValue::SingleRemotePort {
                value: p.value,
            },
            PacketFilterComponentValue::RemotePortRange(p) => SpecFilterValue::RemotePortRange {
                low: p.low,
                high: p.high,
            },
            PacketFilterComponentValue::SecurityParameterIndex(v) => SpecFilterValue::SecurityParameterIndex {
                value: v.value,
            },
            PacketFilterComponentValue::TypeOfServiceTrafficClass(v) => SpecFilterValue::TypeOfServiceTrafficClass {
                value: v.value,
                mask: v.mask,
            },
            PacketFilterComponentValue::FlowLabel(v) => SpecFilterValue::FlowLabel {
                value: v.value,
            },
            PacketFilterComponentValue::DestinationMACAddress(m) => SpecFilterValue::DestinationMacAddress {
                value: m.value@,
            },
            PacketFilterComponentValue::SourceMACAddress(m) => SpecFilterValue::SourceMacAddress {
                value: m.value@,
            },
            PacketFilterComponentValue::VlanCtagVid(v) => SpecFilterValue::VlanCtagVid {
                vid: v.vid,
            },
            PacketFilterComponentValue::VlanStagVid(v) => SpecFilterValue::VlanStagVid {
                vid: v.vid,
            },
            PacketFilterComponentValue::VlanCtagPcpdei(v) => SpecFilterValue::VlanCtagPcpdei {
                pcp: v.pcp,
                dei: v.dei,
            },
            PacketFilterComponentValue::VlanStagPcpdei(v) => SpecFilterValue::VlanStagPcpdei {
                pcp: v.pcp,
                dei: v.dei,
            },
            PacketFilterComponentValue::Ethertype(v) => SpecFilterValue::Ethertype {
                value: v.value,
            },
            PacketFilterComponentValue::DestinationMACAddressRange(m) => SpecFilterValue::DestinationMacAddressRange {
                low: m.low@,
                high: m.high@,
            },
            PacketFilterComponentValue::SourceMACAddressRange(m) => SpecFilterValue::SourceMacAddressRange {
                low: m.low@,
                high: m.high@,
            },
        }
    }
}

impl View for PacketFilterContent {
    type V = SpecComponent;

    open spec fn view(&self) -> SpecComponent {
        SpecComponent {
            ctype: self.packet_filter_content_type,
            value: self.packet_filter_content_value@,
        }
    }
}

impl View for PacketFilterListEnum {
    type V = SpecFilterList;

    open spec fn view(&self) -> SpecFilterList {
        match self {
            PacketFilterListEnum::PacketFilterListDeletePFList(d) => SpecFilterList::DeleteList {
                ids: d.packet_fliter_id@,
            },
            PacketFilterListEnum::PacketFilterListUpdatePFList(u) => SpecFilterList::UpdateList {
                direction: u.packet_filter_direction,
                filter_id: u.packet_filter_id,
                contents_len: u.length_packet_filter_contents,
                components: view_components(u.packet_filter_content_list@),
            },
            PacketFilterListEnum::PacketFilterListOpOnePF(s) => SpecFilterList::SinglePF {
                id: s.packet_fliter_id,
            },
            PacketFilterListEnum::PacketFilterNone => SpecFilterList::NoList,
        }
    }
}

impl View for QOSRulesIE {
    type V = SpecRule;

    open spec fn view(&self) -> SpecRule {
        SpecRule {
            id: self.qosruleidentifer,
            rule_length: self.lengthof_qo_srule,
            filter_count: self.numberofpacketfilters,
            dqr: self.dqrbit,
            op: self.ruleoperationcode,
            filter_list: self.packetfilterlist@,
            precedence: self.qosruleprecedence,
            flow_id: self.qosflowidentifer,
            segregation: self.segregation,
            spare: self.spare,
        }
    }
}

impl View for QOSRules {
    type V = SpecQosRules;

    open spec fn view(&self) -> SpecQosRules {
        SpecQosRules {
            total_length: self.lengthofqosrulesie,
            rules: view_rules(self.qosrulesie@),
        }
    }
}

// ---------------------------------------------------------------------------
// Spec-level decoding.
// ---------------------------------------------------------------------------

/// The big-endian 32-bit value formed by four octets.
pub open spec fn be32(b0: u8, b1: u8, b2: u8, b3: u8) -> u32 {
    ((b0 as u32) << 24) | ((b1 as u32) << 16) | ((b2 as u32) << 8) | (b3 as u32)
}

/// The width in octets of a component's value field, by component type.
/// (`Reserved` never reaches a width: the decoder rejects its tag first.)
pub open spec fn spec_component_width(ct: PacketFilterComponentType) -> int {
    match ct {
        PacketFilterComponentType::MatchAll => 0,
        PacketFilterComponentType::IPv4RemoteAddress => 8,
        PacketFilterComponentType::IPv4LocalAddress => 8,
        PacketFilterComponentType::IPv6RemoteAddressPrefixLength => 17,
        PacketFilterComponentType::IPv6LocalAddressPrefixLength => 17,
        PacketFilterComponentType::ProtocolIdentifierNextHeader => 1,
        PacketFilterComponentType::SingleLocalPort => 2,
        PacketFilterComponentType::LocalPortRange => 4,
        PacketFilterComponentType::SingleRemotePort => 2,
        PacketFilterComponentType::RemotePortRange => 4,
        PacketFilterComponentType::SecurityParameterIndex => 4,
        PacketFilterComponentType::TypeOfServiceTrafficClass => 2,
        PacketFilterComponentType::FlowLabel => 3,
        PacketFilterComponentType::DestinationMACAddress => 6,
        PacketFilterComponentType::SourceMACAddress => 6,
        PacketFilterComponentType::VlanCtagVid => 2,
        PacketFilterComponentType::VlanStagVid => 2,
        PacketFilterComponentType::VlanCtagPcpdei => 1,
        PacketFilterComponentType::VlanStagPcpdei => 1,
        PacketFilterComponentType::Ethertype => 2,
        PacketFilterComponentType::DestinationMACAddressRange => 12,
        PacketFilterComponentType::SourceMACAddressRange => 12,
        PacketFilterComponentType::Reserved => 0,
    }
}

/// The value of a component of type `ct` whose value field starts at `j`.
pub open spec fn spec_component_value(
    ct: PacketFilterComponentType,
    s: Seq<u8>,
    j: int,
) -> SpecFilterValue {
    match ct {
        PacketFilterComponentType::MatchAll => SpecFilterValue::MatchAll,
        PacketFilterComponentType::IPv4RemoteAddress => SpecFilterValue::Ipv4RemoteAddress {
            address: s.subrange(j, j + 4),
            mask: s.subrange(j + 4, j + 8),
        },
        PacketFilterComponentType::IPv4LocalAddress => SpecFilterValue::Ipv4LocalAddress {
            address: s.subrange(j, j + 4),
            mask: s.subrange(j + 4, j + 8),
        },
        PacketFilterComponentType::IPv6RemoteAddressPrefixLength => SpecFilterValue::Ipv6RemoteAddressPrefixLength {
            address: s.subrange(j, j + 16),
            prefix_length: s[j + 16],
        },
        PacketFilterComponentType::IPv6LocalAddressPrefixLength => SpecFilterValue::Ipv6LocalAddressPrefixLength {
            address: s.subrange(j, j + 16),
            prefix_length: s[j + 16],
        },
        PacketFilterComponentType::ProtocolIdentifierNextHeader => SpecFilterValue::ProtocolIdentifierNextHeader {
            value: s[j],
        },
        PacketFilterComponentType::SingleLocalPort => SpecFilterValue::SingleLocalPort {
            value: be16(s[j], s[j + 1]),
        },
        PacketFilterComponentType::LocalPortRange => SpecFilterValue::LocalPortRange {
            low: be16(s[j], s[j + 1]),
            high: be16(s[j + 2], s[j + 3]),
        },
        PacketFilterComponentType::SingleRemotePort => SpecFilterValue::SingleRemotePort {
            value: be16(s[j], s[j + 1]),
        },
        PacketFilterComponentType::RemotePortRange => SpecFilterValue::RemotePortRange {
            low: be16(s[j], s[j + 1]),
            high: be16(s[j + 2], s[j + 3]),
        },
        PacketFilterComponentType::SecurityParameterIndex => SpecFilterValue::SecurityParameterIndex {
            value: be32(s[j], s[j + 1], s[j + 2], s[j + 3]),
        },
        PacketFilterComponentType::TypeOfServiceTrafficClass => SpecFilterValue::TypeOfServiceTrafficClass {
            value: s[j],
            mask: s[j + 1],
        },
        PacketFilterComponentType::FlowLabel => SpecFilterValue::FlowLabel {
            value: (((s[j] & 0x0f) as u32) << 16) | ((s[j + 1] as u32) << 8) | (s[j + 2] as u32),
        },
        PacketFilterComponentType::DestinationMACAddress => SpecFilterValue::DestinationMacAddress {
            value: s.subrange(j, j + 6),
        },
        PacketFilterComponentType::SourceMACAddress => SpecFilterValue::SourceMacAddress {
            value: s.subrange(j, j + 6),
        },
        PacketFilterComponentType::VlanCtagVid => SpecFilterValue::VlanCtagVid {
            vid: (((s[j] & 0x0f) as u16) << 8) | (s[j + 1] as u16),
        },
        PacketFilterComponentType::VlanStagVid => SpecFilterValue::VlanStagVid {
            vid: (((s[j] & 0x0f) as u16) << 8) | (s[j + 1] as u16),
        },
        PacketFilterComponentType::VlanCtagPcpdei => SpecFilterValue::VlanCtagPcpdei {
            pcp: (s[j] >> 1) & 0x07,
            dei: s[j] & 0x01,
        },
        PacketFilterComponentType::VlanStagPcpdei => SpecFilterValue::VlanStagPcpdei {
            pcp: (s[j] >> 1) & 0x07,
            dei: s[j] & 0x01,
        },
        PacketFilterComponentType::Ethertype => SpecFilterValue::Ethertype {
            value: be16(s[j], s[j + 1]),
        },
        PacketFilterComponentType::DestinationMACAddressRange => SpecFilterValue::DestinationMacAddressRange {
            low: s.subrange(j, j + 6),
            high: s.subrange(j + 6, j + 12),
        },
        PacketFilterComponentType::SourceMACAddressRange => SpecFilterValue::SourceMacAddressRange {
            low: s.subrange(j, j + 6),
            high: s.subrange(j + 6, j + 12),
        },
        PacketFilterComponentType::Reserved => SpecFilterValue::MatchAll,
    }
}

/// Decode one packet-filter component whose type octet stands at `i`, within
/// the content region ending at `end`. Returns the component and the offset
/// just past it.
pub open spec fn spec_component_step(s: Seq<u8>, i: int, end: int) -> Result<
    (SpecComponent, int),
    DecodeError,
> {
    if i + 1 > end {
        Err(DecodeError::TruncatedContainer)
    } else {
        let ct = spec_component_type(s[i]);
        if ct == PacketFilterComponentType::Reserved {
            Err(DecodeError::UnknownComponentType)
        } else {
            let w = spec_component_width(ct);
            if i + 1 + w > end {
                Err(DecodeError::TruncatedContainer)
            } else {
                Ok((SpecComponent { ctype: ct, value: spec_component_value(ct, s, i + 1) }, i + 1 + w))
            }
        }
    }
}

/// Decode packet-filter components from `i` until exactly `end`; the loop is
/// byte-count driven, ending precisely when the content region is consumed.
pub open spec fn spec_components(s: Seq<u8>, i: int, end: int) -> Result<
    Seq<SpecComponent>,
    DecodeError,
>
    decreases end - i,
{
    if i >= end {
        Ok(Seq::empty())
    } else {
        match spec_component_step(s, i, end) {
            Err(e) => Err(e),
            Ok((c, j)) => if i < j <= end {
                match spec_components(s, j, end) {
                    Err(e) => Err(e),
                    Ok(rest) => Ok(seq![c] + rest),
                }
            } else {
                // a component always advances within the region; this arm
                // only makes termination of the definition evident
                Err(DecodeError::TruncatedContainer)
            },
        }
    }
}

/// The packet-filter list selected by operation code `oc`, read at `i`.
/// `nf` is the rule's filter-count field. Returns the list and the offset
/// just past it.
pub open spec fn spec_filter_list(s: Seq<u8>, i: int, end: int, oc: u8, nf: u8) -> Result<
    (SpecFilterList, int),
    DecodeError,
> {
    if oc == 2 || oc == 6 {
        Ok((SpecFilterList::NoList, i))
    } else if oc == 5 {
        if i + nf > end {
            Err(DecodeError::TruncatedContainer)
        } else {
            Ok(
                (
                    SpecFilterList::DeleteList {
                        ids: Seq::new(nf as nat, |k: int| s[i + k] & 0x0f),
                    },
                    i + nf,
                ),
            )
        }
    } else if oc == 1 || oc == 3 || oc == 4 {
        if i + 2 > end {
            Err(DecodeError::TruncatedContainer)
        } else {
            let clen = s[i + 1];
            if i + 2 + clen > end {
                Err(DecodeError::TruncatedContainer)
            } else {
                match spec_components(s, i + 2, i + 2 + clen) {
                    Err(e) => Err(e),
                    Ok(cs) => Ok(
                        (
                            SpecFilterList::UpdateList {
                                direction: (s[i] >> 4) & 0x03,
                                filter_id: s[i] & 0x0f,
                                contents_len: clen,
                                components: cs,
                            },
                            i + 2 + clen,
                        ),
                    ),
                }
            }
        }
    } else {
        Err(DecodeError::InvalidOperationCode)
    }
}

/// Decode one QoS rule record starting at `i` within the rules region ending
/// at `end`. Returns the record and the offset just past it.
pub open spec fn spec_rule_step(s: Seq<u8>, i: int, end: int) -> Result<
    (SpecRule, int),
    DecodeError,
> {
    if i + 4 > end {
        Err(DecodeError::TruncatedContainer)
    } else {
        let o7 = s[i + 3];
        let nf = o7 & 0x0f;
        let oc = (o7 >> 5) & 0x07;
        match spec_filter_list(s, i + 4, end, oc, nf) {
            Err(e) => Err(e),
            Ok((fl, k)) => if k + 2 > end {
                Err(DecodeError::TruncatedContainer)
            } else {
                Ok(
                    (
                        SpecRule {
                            id: s[i],
                            rule_length: be16(s[i + 1], s[i + 2]),
                            filter_count: nf,
                            dqr: (o7 >> 4) & 0x01,
                            op: spec_rule_operation_code(oc),
                            filter_list: fl,
                            precedence: s[k],
                            flow_id: s[k + 1] & 0x3f,
                            segregation: (s[k + 1] >> 6) & 0x01,
                            spare: 0,
                        },
                        k + 2,
                    ),
                )
            },
        }
    }
}

/// Decode QoS rule records from `i` until exactly `end`; a record that would
/// read past `end` is a truncation error.
pub open spec fn spec_rules(s: Seq<u8>, i: int, end: int) -> Result<Seq<SpecRule>, DecodeError>
    decreases end - i,
{
    if i >= end {
        Ok(Seq::empty())
    } else {
        match spec_rule_step(s, i, end) {
            Err(e) => Err(e),
            Ok((r, j)) => if i < j <= end {
                match spec_rules(s, j, end) {
                    Err(e) => Err(e),
                    Ok(rest) => Ok(seq![r] + rest),
                }
            } else {
                // a record always advances within the region; this arm only
                // makes termination of the definition evident
                Err(DecodeError::TruncatedContainer)
            },
        }
    }
}

// ---------------------------------------------------------------------------
// Executable decoders.
// ---------------------------------------------------------------------------

/// The width in octets of a component's value field.
pub fn component_width(ct: PacketFilterComponentType) -> (w: usize)
    ensures
        w == spec_component_width(ct),
{
    match ct {
        PacketFilterComponentType::MatchAll => 0,
        PacketFilterComponentType::IPv4RemoteAddress => 8,
        PacketFilterComponentType::IPv4LocalAddress => 8,
        PacketFilterComponentType::IPv6RemoteAddressPrefixLength => 17,
        PacketFilterComponentType::IPv6LocalAddressPrefixLength => 17,
        PacketFilterComponentType::ProtocolIdentifierNextHeader => 1,
        PacketFilterComponentType::SingleLocalPort => 2,
        PacketFilterComponentType::LocalPortRange => 4,
        PacketFilterComponentType::SingleRemotePort => 2,
        PacketFilterComponentType::RemotePortRange => 4,
        PacketFilterComponentType::SecurityParameterIndex => 4,
        PacketFilterComponentType::TypeOfServiceTrafficClass => 2,
        PacketFilterComponentType::FlowLabel => 3,
        PacketFilterComponentType::DestinationMACAddress => 6,
        PacketFilterComponentType::SourceMACAddress => 6,
        PacketFilterComponentType::VlanCtagVid => 2,
        PacketFilterComponentType::VlanStagVid => 2,
        PacketFilterComponentType::VlanCtagPcpdei => 1,
        PacketFilterComponentType::VlanStagPcpdei => 1,
        PacketFilterComponentType::Ethertype => 2,
        PacketFilterComponentType::DestinationMACAddressRange => 12,
        PacketFilterComponentType::SourceMACAddressRange => 12,
        PacketFilterComponentType::Reserved => 0,
    }
}

/// Decode the value field of a component of type `ct` starting at `j`.
#[verifier::rlimit(50)]
#[verifier::spinoff_prover]
fn decode_component_value(data: &[u8], ct: PacketFilterComponentType, j: usize) -> (v:
    PacketFilterComponentValue)
    requires
        ct != PacketFilterComponentType::Reserved,
        j + spec_component_width(ct) <= data@.len(),
        j + spec_component_width(ct) <= usize::MAX,
    ensures
        v@ == spec_component_value(ct, data@, j as int),
{
    match ct {
        PacketFilterComponentType::Reserved => PacketFilterComponentValue::MatchAll,
        PacketFilterComponentType::MatchAll => PacketFilterComponentValue::MatchAll,
        PacketFilterComponentType::IPv4RemoteAddress => PacketFilterComponentValue::IPv4RemoteAddress(
            IPv4FilterAddress {
                ipv4_address: crate::bytes::copy_range(data, j, j + 4),
                ipv4_address_mask: crate::bytes::copy_range(data, j + 4, j + 8),
            },
        ),
        PacketFilterComponentType::IPv4LocalAddress => PacketFilterComponentValue::IPv4LocalAddress(
            IPv4FilterAddress {
                ipv4_address: crate::bytes::copy_range(data, j, j + 4),
                ipv4_address_mask: crate::bytes::copy_range(data, j + 4, j + 8),
            },
        ),
        PacketFilterComponentType::IPv6RemoteAddressPrefixLength => PacketFilterComponentValue::IPv6RemoteAddressPrefixLength(
            IPv6FilterAddress {
                ipv6_address: crate::bytes::copy_range(data, j, j + 16),
                prefix_length: data[j + 16],
            },
        ),
        PacketFilterComponentType::IPv6LocalAddressPrefixLength => PacketFilterComponentValue::IPv6LocalAddressPrefixLength(
            IPv6FilterAddress {
                ipv6_address: crate::bytes::copy_range(data, j, j + 16),
                prefix_length: data[j + 16],
            },
        ),
        PacketFilterComponentType::ProtocolIdentifierNextHeader => PacketFilterComponentValue::ProtocolIdentifierNextHeader(
            ProtocolIdentifierNextHeader { value: data[j] },
        ),
        PacketFilterComponentType::SingleLocalPort => PacketFilterComponentValue::SingleLocalPort(
            Port { value: ((data[j] as u16) << 8) | (data[j + 1] as u16) },
        ),
        PacketFilterComponentType::LocalPortRange => PacketFilterComponentValue::LocalPortRange(
            PortRange {
                low: ((data[j] as u16) << 8) | (data[j + 1] as u16),
                high: ((data[j + 2] as u16) << 8) | (data[j + 3] as u16),
            },
        ),
        PacketFilterComponentType::SingleRemotePort => PacketFilterComponentValue::SingleRemotePort(
            Port { value: ((data[j] as u16) << 8) | (data[j + 1] as u16) },
        ),
        PacketFilterComponentType::RemotePortRange => PacketFilterComponentValue::RemotePortRange(
            PortRange {
                low: ((data[j] as u16) << 8) | (data[j + 1] as u16),
                high: ((data[j + 2] as u16) << 8) | (data[j + 3] as u16),
            },
        ),
        PacketFilterComponentType::SecurityParameterIndex => PacketFilterComponentValue::SecurityParameterIndex(
            SecurityParameterIndex {
                value: ((data[j] as u32) << 24) | ((data[j + 1] as u32) << 16) | ((data[j + 2]
                    as u32) << 8) | (data[j + 3] as u32),
            },
        ),
        PacketFilterComponentType::TypeOfServiceTrafficClass => PacketFilterComponentValue::TypeOfServiceTrafficClass(
            TypeOfServiceTrafficClass { value: data[j], mask: data[j + 1] },
        ),
        PacketFilterComponentType::FlowLabel => PacketFilterComponentValue::FlowLabel(
            FlowLabel {
                value: (((data[j] & 0x0f) as u32) << 16) | ((data[j + 1] as u32) << 8) | (data[j
                    + 2] as u32),
            },
        ),
        PacketFilterComponentType::DestinationMACAddress => PacketFilterComponentValue::DestinationMACAddress(
            MACAddress { value: crate::bytes::copy_range(data, j, j + 6) },
        ),
        PacketFilterComponentType::SourceMACAddress => PacketFilterComponentValue::SourceMACAddress(
            MACAddress { value: crate::bytes::copy_range(data, j, j + 6) },
        ),
        PacketFilterComponentType::VlanCtagVid => PacketFilterComponentValue::VlanCtagVid(
            VlanCtagVid { vid: (((data[j] & 0x0f) as u16) << 8) | (data[j + 1] as u16) },
        ),
        PacketFilterComponentType::VlanStagVid => PacketFilterComponentValue::VlanStagVid(
            VlanStagVid { vid: (((data[j] & 0x0f) as u16) << 8) | (data[j + 1] as u16) },
        ),
        PacketFilterComponentType::VlanCtagPcpdei => PacketFilterComponentValue::VlanCtagPcpdei(
            VlanCtagPcpdei { pcp: (data[j] >> 1) & 0x07, dei: data[j] & 0x01 },
        ),
        PacketFilterComponentType::VlanStagPcpdei => PacketFilterComponentValue::VlanStagPcpdei(
            VlanStagPcpdei { pcp: (data[j] >> 1) & 0x07, dei: data[j] & 0x01 },
        ),
        PacketFilterComponentType::Ethertype => PacketFilterComponentValue::Ethertype(
            Ethertype { value: ((data[j] as u16) << 8) | (data[j + 1] as u16) },
        ),
        PacketFilterComponentType::DestinationMACAddressRange => PacketFilterComponentValue::DestinationMACAddressRange(
            DestinationMACAddressRange {
                low: crate::bytes::copy_range(data, j, j + 6),
                high: crate::bytes::copy_range(data, j + 6, j + 12),
            },
        ),
        PacketFilterComponentType::SourceMACAddressRange => PacketFilterComponentValue::SourceMACAddressRange(
            SourceMACAddressRange {
                low: crate::bytes::copy_range(data, j, j + 6),
                high: crate::bytes::copy_range(data, j + 6, j + 12),
            },
        ),
    }
}

/// Decode one packet-filter component whose type octet stands at `pos`,
/// within the content region ending at `end`. Returns the component and the
/// offset just past it.
pub fn decode_packet_filter_component(data: &[u8], pos: usize, end: usize) -> (r: Result<
    (PacketFilterContent, usize),
    DecodeError,
>)
    requires
        end <= data@.len(),
        pos <= end,
    ensures
        match r {
            Ok((c, p)) => spec_component_step(data@, pos as int, end as int) == Ok::<
                (SpecComponent, int),
                DecodeError,
            >((c@, p as int)) && pos < p <= end,
            Err(e) => spec_component_step(data@, pos as int, end as int) == Err::<
                (SpecComponent, int),
                DecodeError,
            >(e),
        },
{
    if end - pos < 1 {
        return Err(DecodeError::TruncatedContainer);
    }
    let ct = PacketFilterComponentType::from_u8(data[pos]);
    if ct == PacketFilterComponentType::Reserved {
        return Err(DecodeError::UnknownComponentType);
    }
    let j = pos + 1;
    let w = component_width(ct);
    if end - j < w {
        return Err(DecodeError::TruncatedContainer);
    }
    let value = decode_component_value(data, ct, j);
    Ok(
        (
            PacketFilterContent {
                packet_filter_content_type: ct,
                packet_filter_content_value: value,
            },
            j + w,
        ),
    )
}

/// Decode packet-filter components from `start` until exactly `end`.
pub fn decode_packet_filter_contents(data: &[u8], start: usize, end: usize) -> (r: Result<
    Vec<PacketFilterContent>,
    DecodeError,
>)
    requires
        end <= data@.len(),
        start <= end,
    ensures
        match r {
            Ok(list) => spec_components(data@, start as int, end as int) == Ok::<
                Seq<SpecComponent>,
                DecodeError,
            >(view_components(list@)),
            Err(e) => spec_components(data@, start as int, end as int) == Err::<
                Seq<SpecComponent>,
                DecodeError,
            >(e),
        },
{
    let ghost s = data@;
    let mut list: Vec<PacketFilterContent> = Vec::new();
    let mut pos = start;
    proof {
        assert(view_components(list@) =~= Seq::<SpecComponent>::empty());
    }
    while pos < end
        invariant
            end <= s.len(),
            start <= pos <= end,
            s == data@,
            spec_components(s, start as int, end as int) == match spec_components(
                s,
                pos as int,
                end as int,
            ) {
                Ok(rest) => Ok::<Seq<SpecComponent>, DecodeError>(view_components(list@) + rest),
                Err(e) => Err::<Seq<SpecComponent>, DecodeError>(e),
            },
        decreases end - pos,
    {
        match decode_packet_filter_component(data, pos, end) {
            Err(e) => {
                return Err(e);
            },
            Ok((c, p)) => {
                proof {
                    assert(spec_components(s, pos as int, end as int) == match spec_components(
                        s,
                        p as int,
                        end as int,
                    ) {
                        Ok(rest) => Ok::<Seq<SpecComponent>, DecodeError>(seq![c@] + rest),
                        Err(e) => Err::<Seq<SpecComponent>, DecodeError>(e),
                    });
                    assert(view_components(list@.push(c)) =~= view_components(list@) + seq![c@]);
                    assert forall|rest: Seq<SpecComponent>|
                        view_components(list@) + (seq![c@] + rest) =~= view_components(list@.push(c))
                            + rest by {}
                }
                list.push(c);
                pos = p;
            },
        }
    }
    proof {
        assert(spec_components(s, pos as int, end as int) == Ok::<Seq<SpecComponent>, DecodeError>(
            Seq::empty(),
        ));
        assert(view_components(list@) + Seq::<SpecComponent>::empty() =~= view_components(list@));
    }
    Ok(list)
}

/// Decode one QoS rule record starting at `pos` within the rules region
/// ending at `end`. Returns the record and the offset just past it.
pub fn decode_qos_rule(data: &[u8], pos: usize, end: usize) -> (r: Result<
    (QOSRulesIE, usize),
    DecodeError,
>)
    requires
        end <= data@.len(),
        pos <= end,
    ensures
        match r {
            Ok((ie, p)) => spec_rule_step(data@, pos as int, end as int) == Ok::<
                (SpecRule, int),
                DecodeError,
            >((ie@, p as int)) && pos < p <= end,
            Err(e) => spec_rule_step(data@, pos as int, end as int) == Err::<
                (SpecRule, int),
                DecodeError,
            >(e),
        },
{
    if end - pos < 4 {
        return Err(DecodeError::TruncatedContainer);
    }
    let o7 = data[pos + 3];
    let nf = o7 & 0x0f;
    let oc = (o7 >> 5) & 0x07;
    let opcode = RuleOperationCode::from_u8(oc);
    let mut k = pos + 4;
    let packetfilterlist: PacketFilterListEnum = match opcode {
        RuleOperationCode::DeleteExistingQosRule
        | RuleOperationCode::ModifyExistingQosRuleWithoutModifyPackerFilters => {
            PacketFilterListEnum::PacketFilterNone
        },
        RuleOperationCode::ModifyExistingQosRuleAndDeletePackerFilters => {
            if end - k < nf as usize {
                return Err(DecodeError::TruncatedContainer);
            }
            let mut ids: Vec<u8> = Vec::new();
            let mut m: usize = 0;
            while m < nf as usize
                invariant
                    end <= data@.len(),
                    k + nf as usize <= end,
                    m <= nf as usize,
                    ids@ == Seq::new(m as nat, |t: int| data@[k + t] & 0x0f),
                decreases nf as usize - m,
            {
                ids.push(data[k + m] & 0x0f);
                proof {
                    assert(ids@ =~= Seq::new((m + 1) as nat, |t: int| data@[k + t] & 0x0f));
                }
                m = m + 1;
            }
            k = k + nf as usize;
            PacketFilterListEnum::PacketFilterListDeletePFList(
                PacketFilterListDeletePFList { packet_fliter_id: ids },
            )
        },
        RuleOperationCode::CreateNewQosRule
        | RuleOperationCode::ModifyExistingQosRuleAndAddPackerFilters
        | RuleOperationCode::ModifyExistingQosRuleAndReplacePackerFilters => {
            if end - k < 2 {
                return Err(DecodeError::TruncatedContainer);
            }
            let direction = (data[k] >> 4) & 0x03;
            let filter_id = data[k] & 0x0f;
            let clen = data[k + 1];
            if end - (k + 2) < clen as usize {
                return Err(DecodeError::TruncatedContainer);
            }
            let cend = k + 2 + clen as usize;
            let contents = match decode_packet_filter_contents(data, k + 2, cend) {
                Ok(l) => l,
                Err(e) => {
                    return Err(e);
                },
            };
            k = cend;
            PacketFilterListEnum::PacketFilterListUpdatePFList(
                PacketFilterListUpdatePFList {
                    packet_filter_direction: direction,
                    packet_filter_id: filter_id,
                    length_packet_filter_contents: clen,
                    packet_filter_content_list: contents,
                },
            )
        },
        RuleOperationCode::Reserved => {
            return Err(DecodeError::InvalidOperationCode);
        },
    };
    if end - k < 2 {
        return Err(DecodeError::TruncatedContainer);
    }
    let ie = QOSRulesIE {
        qosruleidentifer: data[pos],
        lengthof_qo_srule: ((data[pos + 1] as u16) << 8) | (data[pos + 2] as u16),
        numberofpacketfilters: nf,
        dqrbit: (o7 >> 4) & 0x01,
        ruleoperationcode: opcode,
        packetfilterlist,
        qosruleprecedence: data[k],
        qosflowidentifer: data[k + 1] & 0x3f,
        segregation: (data[k + 1] >> 6) & 0x01,
        spare: 0,
    };
    Ok((ie, k + 2))
}

/// Decode the whole QoS-Rules IE: a 2-octet total length whose span must lie
/// inside the buffer, then rule records filling that span exactly.
pub open spec fn spec_decode_qos_rules(s: Seq<u8>) -> Result<SpecQosRules, DecodeError> {
    if s.len() < 2 {
        Err(DecodeError::OutOfBounds)
    } else {
        let total = be16(s[0], s[1]);
        if 2 + total > s.len() {
            Err(DecodeError::OutOfBounds)
        } else {
            match spec_rules(s, 2, 2 + total) {
                Err(e) => Err(e),
                Ok(rs) => Ok(SpecQosRules { total_length: total, rules: rs }),
            }
        }
    }
}

impl QOSRules {
    /// Decode the QoS-Rules IE from the start of `data`: the 2-octet total
    /// length, then rule records filling exactly that many octets. A record
    /// that would read past the declared total length is a truncation error;
    /// a declared total length that exceeds the buffer is out of bounds.
    pub fn decode(data: &[u8]) -> (r: Result<QOSRules, DecodeError>)
        ensures
            match r {
                Ok(q) => spec_decode_qos_rules(data@) == Ok::<SpecQosRules, DecodeError>(q@),
                Err(e) => spec_decode_qos_rules(data@) == Err::<SpecQosRules, DecodeError>(e),
            },
    {
        let total = match crate::bytes::read_u16_be(data, 0) {
            Ok((v, _)) => v,
            Err(e) => {
                return Err(e);
            },
        };
        if data.len() - 2 < total as usize {
            return Err(DecodeError::OutOfBounds);
        }
        let end = 2 + total as usize;
        let mut rules: Vec<QOSRulesIE> = Vec::new();
        let mut pos: usize = 2;
        proof {
            assert(view_rules(rules@) =~= Seq::<SpecRule>::empty());
        }
        while pos < end
            invariant
                end <= data@.len(),
                2 <= pos <= end,
                total == be16(data@[0], data@[1]),
                end == 2 + total as usize,
                spec_rules(data@, 2, end as int) == match spec_rules(data@, pos as int, end as int) {
                    Ok(rest) => Ok::<Seq<SpecRule>, DecodeError>(view_rules(rules@) + rest),
                    Err(e) => Err::<Seq<SpecRule>, DecodeError>(e),
                },
            decreases end - pos,
        {
            match decode_qos_rule(data, pos, end) {
                Err(e) => {
                    proof {
                        assert(spec_rules(data@, pos as int, end as int) == Err::<
                            Seq<SpecRule>,
                            DecodeError,
                        >(e));
                        assert(spec_rules(data@, 2, end as int) == Err::<
                            Seq<SpecRule>,
                            DecodeError,
                        >(e));
                        assert(spec_decode_qos_rules(data@) == Err::<SpecQosRules, DecodeError>(e));
                    }
                    return Err(e);
                },
                Ok((ie, p)) => {
                    proof {
                        assert(spec_rules(data@, pos as int, end as int) == match spec_rules(
                            data@,
                            p as int,
                            end as int,
                        ) {
                            Ok(rest) => Ok::<Seq<SpecRule>, DecodeError>(seq![ie@] + rest),
                            Err(e) => Err::<Seq<SpecRule>, DecodeError>(e),
                        });
                        assert(view_rules(rules@.push(ie)) =~= view_rules(rules@) + seq![ie@]);
                        assert forall|rest: Seq<SpecRule>|
                            view_rules(rules@) + (seq![ie@] + rest) =~= view_rules(rules@.push(ie))
                                + rest by {}
                    }
                    rules.push(ie);
                    pos = p;
                },
            }
        }
        proof {
            assert(spec_rules(data@, pos as int, end as int) == Ok::<Seq<SpecRule>, DecodeError>(
                Seq::empty(),
            ));
            assert(view_rules(rules@) + Seq::<SpecRule>::empty() =~= view_rules(rules@));
            assert(spec_rules(data@, 2, end as int) == Ok::<Seq<SpecRule>, DecodeError>(
                view_rules(rules@),
            ));
            assert(spec_decode_qos_rules(data@) == Ok::<SpecQosRules, DecodeError>(
                SpecQosRules { total_length: total, rules: view_rules(rules@) },
            ));
        }
        Ok(QOSRules { lengthofqosrulesie: total, qosrulesie: rules })
    }
}

/// Operation-code completeness: a decoded rule's packet-filter-list shape is
/// exactly the one its operation code selects (the three create/add/replace
/// codes an update list, the delete-filters code a delete list, the two
/// remaining defined codes no list), and no decoded rule carries a reserved
/// code.
pub proof fn lemma_rule_opcode_shape(s: Seq<u8>, i: int, end: int, r: SpecRule, j: int)
    requires
        spec_rule_step(s, i, end) == Ok::<(SpecRule, int), DecodeError>((r, j)),
    ensures
        r.op == spec_rule_operation_code((s[i + 3] >> 5) & 0x07),
        r.op != RuleOperationCode::Reserved,
        (r.op == RuleOperationCode::CreateNewQosRule || r.op
            == RuleOperationCode::ModifyExistingQosRuleAndAddPackerFilters || r.op
            == RuleOperationCode::ModifyExistingQosRuleAndReplacePackerFilters) <==> r.filter_list
            is UpdateList,
        (r.op == RuleOperationCode::DeleteExistingQosRule || r.op
            == RuleOperationCode::ModifyExistingQosRuleWithoutModifyPackerFilters)
            <==> r.filter_list is NoList,
        r.op == RuleOperationCode::ModifyExistingQosRuleAndDeletePackerFilters
            <==> r.filter_list is DeleteList,
{
}

/// The two operation codes outside the six defined ones never decode: a rule
/// whose packed octet carries code 0 or 7 is an invalid-operation-code error.
pub proof fn lemma_reserved_opcode_rejected(s: Seq<u8>, i: int, end: int)
    requires
        i + 4 <= end,
        ((s[i + 3] >> 5) & 0x07) == 0 || ((s[i + 3] >> 5) & 0x07) == 7,
    ensures
        spec_rule_step(s, i, end) == Err::<(SpecRule, int), DecodeError>(
            DecodeError::InvalidOperationCode,
        ),
{
}

/// The same at the IE level: a QoS-Rules IE whose first rule record carries
/// one of the two reserved operation codes (the record's 4-octet header
/// standing inside the declared span) decodes to `InvalidOperationCode`.
pub proof fn lemma_reserved_opcode_ie_rejected(s: Seq<u8>)
    requires
        s.len() >= 2,
        2 + be16(s[0], s[1]) <= s.len(),
        be16(s[0], s[1]) >= 4,
        ((s[5] >> 5) & 0x07) == 0 || ((s[5] >> 5) & 0x07) == 7,
    ensures
        spec_decode_qos_rules(s) == Err::<SpecQosRules, DecodeError>(
            DecodeError::InvalidOperationCode,
        ),
{
    let end = 2 + be16(s[0], s[1]);
    lemma_reserved_opcode_rejected(s, 2, end);
    assert(spec_rules(s, 2, end) == Err::<Seq<SpecRule>, DecodeError>(
        DecodeError::InvalidOperationCode,
    ));
}

} // verus!