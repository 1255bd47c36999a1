use nas_pdu_decoder::bytes::{read_u16_be, read_u8, read_slice, DecodeError};
use nas_pdu_decoder::msg::{exported_pdu_frame, IttiTrxTag, NasDecoerSdu};
use nas_pdu_decoder::pdu_accept::{
    tlv_decode_nr_network_if_mgm, OctetString, PDUAddress, PDUSessionType, PduAddressType,
    QOSFlowDescriptions,
};
use nas_pdu_decoder::pdu_helper::SessionMessageType;
use nas_pdu_decoder::qos_rules::{
    PacketFilterComponentType, PacketFilterComponentValue, PacketFilterListEnum, QOSRules,
    RuleOperationCode,
};

/// A QoS-Rules IE holding one rule with the given packed octet and filter
/// list bytes, followed by precedence 0x20 and flow octet 0x45.
fn one_rule(octet7: u8, list_bytes: &[u8]) -> Vec<u8> {
    let mut content = vec![0x07, 0x00, 0x00, octet7];
    content.extend_from_slice(list_bytes);
    content.push(0x20);
    content.push(0x45);
    let total = content.len() as u16;
    let mut raw = total.to_be_bytes().to_vec();
    raw.extend_from_slice(&content);
    raw
}

fn decode_one_rule(octet7: u8, list_bytes: &[u8]) -> nas_pdu_decoder::qos_rules::QOSRulesIE {
    let raw = one_rule(octet7, list_bytes);
    let rules = QOSRules::decode(&raw).unwrap();
    assert_eq!(rules.qosrulesie.len(), 1);
    rules.qosrulesie.into_iter().next().unwrap()
}

#[test]
fn operation_code_create_yields_update_list() {
    // code 001, filter count 0: an empty update list.
    let rule = decode_one_rule(0b001_0_0000, &[0x31, 0x00]);
    assert_eq!(rule.ruleoperationcode, RuleOperationCode::CreateNewQosRule);
    match rule.packetfilterlist {
        PacketFilterListEnum::PacketFilterListUpdatePFList(u) => {
            assert_eq!(u.packet_filter_direction, 3);
            assert_eq!(u.packet_filter_id, 1);
            assert_eq!(u.packet_filter_content_list.len(), 0);
        }
        other => panic!("wrong shape: {:?}", other),
    }
    assert_eq!(rule.qosruleprecedence, 0x20);
    assert_eq!(rule.qosflowidentifer, 0x05);
    assert_eq!(rule.segregation, 1);
}

#[test]
fn operation_code_delete_rule_yields_no_list() {
    let rule = decode_one_rule(0b010_0_0000, &[]);
    assert_eq!(
        rule.ruleoperationcode,
        RuleOperationCode::DeleteExistingQosRule
    );
    assert!(matches!(
        rule.packetfilterlist,
        PacketFilterListEnum::PacketFilterNone
    ));
}

#[test]
fn operation_code_add_yields_update_list() {
    let rule = decode_one_rule(0b011_0_0000, &[0x11, 0x00]);
    assert_eq!(
        rule.ruleoperationcode,
        RuleOperationCode::ModifyExistingQosRuleAndAddPackerFilters
    );
    assert!(matches!(
        rule.packetfilterlist,
        PacketFilterListEnum::PacketFilterListUpdatePFList(_)
    ));
}

#[test]
fn operation_code_replace_yields_update_list() {
    let rule = decode_one_rule(0b100_0_0000, &[0x11, 0x00]);
    assert_eq!(
        rule.ruleoperationcode,
        RuleOperationCode::ModifyExistingQosRuleAndReplacePackerFilters
    );
    assert!(matches!(
        rule.packetfilterlist,
        PacketFilterListEnum::PacketFilterListUpdatePFList(_)
    ));
}

#[test]
fn operation_code_delete_filters_yields_delete_list() {
    // code 101, filter count 2: two 4-bit filter identifiers follow.
    let rule = decode_one_rule(0b101_0_0010, &[0xf7, 0x39]);
    assert_eq!(
        rule.ruleoperationcode,
        RuleOperationCode::ModifyExistingQosRuleAndDeletePackerFilters
    );
    match rule.packetfilterlist {
        PacketFilterListEnum::PacketFilterListDeletePFList(d) => {
            assert_eq!(d.packet_fliter_id, vec![0x07, 0x09]);
        }
        other => panic!("wrong shape: {:?}", other),
    }
}

#[test]
fn operation_code_modify_without_filters_yields_no_list() {
    let rule = decode_one_rule(0b110_0_0000, &[]);
    assert_eq!(
        rule.ruleoperationcode,
        RuleOperationCode::ModifyExistingQosRuleWithoutModifyPackerFilters
    );
    assert!(matches!(
        rule.packetfilterlist,
        PacketFilterListEnum::PacketFilterNone
    ));
}

#[test]
fn operation_code_zero_rejects() {
    let raw = one_rule(0b000_0_0000, &[]);
    assert_eq!(
        QOSRules::decode(&raw).unwrap_err(),
        DecodeError::InvalidOperationCode
    );
}

#[test]
fn operation_code_seven_rejects() {
    let raw = one_rule(0b111_0_0000, &[]);
    assert_eq!(
        QOSRules::decode(&raw).unwrap_err(),
        DecodeError::InvalidOperationCode
    );
}

#[test]
fn rule_record_past_declared_length_rejects() {
    // One rule needing 8 octets inside a declared span of 5.
    let raw = vec![0x00, 0x05, 0x07, 0x00, 0x00, 0b001_0_0000, 0x11];
    assert_eq!(
        QOSRules::decode(&raw).unwrap_err(),
        DecodeError::TruncatedContainer
    );
}

#[test]
fn rules_declared_length_past_buffer_rejects() {
    assert_eq!(
        QOSRules::decode(&[0x00, 0x09, 0x01]).unwrap_err(),
        DecodeError::OutOfBounds
    );
    assert_eq!(QOSRules::decode(&[0x00]).unwrap_err(), DecodeError::OutOfBounds);
}

#[test]
fn empty_rules_decode() {
    let rules = QOSRules::decode(&[0x00, 0x00]).unwrap();
    assert_eq!(rules.lengthofqosrulesie, 0);
    assert_eq!(rules.qosrulesie.len(), 0);
}

/// One update-list rule whose contents are exactly the given component bytes.
fn decode_components(component_bytes: &[u8]) -> Vec<nas_pdu_decoder::qos_rules::PacketFilterContent> {
    let mut list = vec![0x11, component_bytes.len() as u8];
    list.extend_from_slice(component_bytes);
    let rule = decode_one_rule(0b001_0_0001, &list);
    match rule.packetfilterlist {
        PacketFilterListEnum::PacketFilterListUpdatePFList(u) => u.packet_filter_content_list,
        other => panic!("wrong shape: {:?}", other),
    }
}

#[test]
fn component_ipv4_remote_address() {
    let cs = decode_components(&[0x09, 10, 0, 0, 1, 255, 255, 255, 0]);
    assert_eq!(cs.len(), 1);
    assert_eq!(
        cs[0].packet_filter_content_type,
        PacketFilterComponentType::IPv4RemoteAddress
    );
    match &cs[0].packet_filter_content_value {
        PacketFilterComponentValue::IPv4RemoteAddress(a) => {
            assert_eq!(a.ipv4_address, vec![10, 0, 0, 1]);
            assert_eq!(a.ipv4_address_mask, vec![255, 255, 255, 0]);
        }
        other => panic!("wrong value: {:?}", other),
    }
}

#[test]
fn component_ipv6_local_address_prefix() {
    let mut bytes = vec![0x0f];
    bytes.extend_from_slice(&[0xfe; 16]);
    bytes.push(64);
    let cs = decode_components(&bytes);
    match &cs[0].packet_filter_content_value {
        PacketFilterComponentValue::IPv6LocalAddressPrefixLength(a) => {
            assert_eq!(a.ipv6_address, vec![0xfe; 16]);
            assert_eq!(a.prefix_length, 64);
        }
        other => panic!("wrong value: {:?}", other),
    }
}

#[test]
fn component_ports_and_ranges() {
    let cs = decode_components(&[
        0x10, 17, // protocol identifier
        0x11, 0x1f, 0x90, // single local port 8080
        0x12, 0x00, 0x50, 0x01, 0x00, // local port range 80..256
        0x13, 0x01, 0xbb, // single remote port 443
        0x14, 0xc0, 0x00, 0xff, 0xff, // remote port range 49152..65535
    ]);
    assert_eq!(cs.len(), 5);
    match &cs[0].packet_filter_content_value {
        PacketFilterComponentValue::ProtocolIdentifierNextHeader(p) => assert_eq!(p.value, 17),
        other => panic!("wrong value: {:?}", other),
    }
    match &cs[1].packet_filter_content_value {
        PacketFilterComponentValue::SingleLocalPort(p) => assert_eq!(p.value, 8080),
        other => panic!("wrong value: {:?}", other),
    }
    match &cs[2].packet_filter_content_value {
        PacketFilterComponentValue::LocalPortRange(p) => {
            assert_eq!(p.low, 80);
            assert_eq!(p.high, 256);
        }
        other => panic!("wrong value: {:?}", other),
    }
    match &cs[3].packet_filter_content_value {
        PacketFilterComponentValue::SingleRemotePort(p) => assert_eq!(p.value, 443),
        other => panic!("wrong value: {:?}", other),
    }
    match &cs[4].packet_filter_content_value {
        PacketFilterComponentValue::RemotePortRange(p) => {
            assert_eq!(p.low, 49152);
            assert_eq!(p.high, 65535);
        }
        other => panic!("wrong value: {:?}", other),
    }
}

#[test]
fn component_spi_tos_flow_label() {
    let cs = decode_components(&[
        0x18, 0x12, 0x34, 0x56, 0x78, // security parameter index
        0x19, 0xb8, 0xfc, // type of service + mask
        0x20, 0xf5, 0x43, 0x21, // flow label: spare bits dropped
    ]);
    match &cs[0].packet_filter_content_value {
        PacketFilterComponentValue::SecurityParameterIndex(v) => {
            assert_eq!(v.value, 0x12345678);
        }
        other => panic!("wrong value: {:?}", other),
    }
    match &cs[1].packet_filter_content_value {
        PacketFilterComponentValue::TypeOfServiceTrafficClass(v) => {
            assert_eq!(v.value, 0xb8);
            assert_eq!(v.mask, 0xfc);
        }
        other => panic!("wrong value: {:?}", other),
    }
    match &cs[2].packet_filter_content_value {
        PacketFilterComponentValue::FlowLabel(v) => assert_eq!(v.value, 0x54321),
        other => panic!("wrong value: {:?}", other),
    }
}

#[test]
fn component_mac_and_vlan() {
    let cs = decode_components(&[
        0x21, 1, 2, 3, 4, 5, 6, // destination MAC
        0x22, 6, 5, 4, 3, 2, 1, // source MAC
        0x23, 0xf1, 0x23, // C-TAG VID: 12 bits
        0x24, 0x02, 0x34, // S-TAG VID
        0x25, 0x0b, // C-TAG PCP/DEI: pcp 101, dei 1
        0x26, 0x04, // S-TAG PCP/DEI: pcp 010, dei 0
        0x27, 0x08, 0x00, // ethertype
    ]);
    match &cs[0].packet_filter_content_value {
        PacketFilterComponentValue::DestinationMACAddress(m) => {
            assert_eq!(m.value, vec![1, 2, 3, 4, 5, 6]);
        }
        other => panic!("wrong value: {:?}", other),
    }
    match &cs[1].packet_filter_content_value {
        PacketFilterComponentValue::SourceMACAddress(m) => {
            assert_eq!(m.value, vec![6, 5, 4, 3, 2, 1]);
        }
        other => panic!("wrong value: {:?}", other),
    }
    match &cs[2].packet_filter_content_value {
        PacketFilterComponentValue::VlanCtagVid(v) => assert_eq!(v.vid, 0x123),
        other => panic!("wrong value: {:?}", other),
    }
    match &cs[3].packet_filter_content_value {
        PacketFilterComponentValue::VlanStagVid(v) => assert_eq!(v.vid, 0x234),
        other => panic!("wrong value: {:?}", other),
    }
    match &cs[4].packet_filter_content_value {
        PacketFilterComponentValue::VlanCtagPcpdei(v) => {
            assert_eq!(v.pcp, 0b101);
            assert_eq!(v.dei, 1);
        }
        other => panic!("wrong value: {:?}", other),
    }
    match &cs[5].packet_filter_content_value {
        PacketFilterComponentValue::VlanStagPcpdei(v) => {
            assert_eq!(v.pcp, 0b010);
            assert_eq!(v.dei, 0);
        }
        other => panic!("wrong value: {:?}", other),
    }
    match &cs[6].packet_filter_content_value {
        PacketFilterComponentValue::Ethertype(v) => assert_eq!(v.value, 0x0800),
        other => panic!("wrong value: {:?}", other),
    }
}

#[test]
fn component_mac_ranges() {
    let cs = decode_components(&[
        0x28, 1, 1, 1, 1, 1, 1, 9, 9, 9, 9, 9, 9, // destination MAC range
        0x29, 2, 2, 2, 2, 2, 2, 8, 8, 8, 8, 8, 8, // source MAC range
    ]);
    match &cs[0].packet_filter_content_value {
        PacketFilterComponentValue::DestinationMACAddressRange(m) => {
            assert_eq!(m.low, vec![1; 6]);
            assert_eq!(m.high, vec![9; 6]);
        }
        other => panic!("wrong value: {:?}", other),
    }
    match &cs[1].packet_filter_content_value {
        PacketFilterComponentValue::SourceMACAddressRange(m) => {
            assert_eq!(m.low, vec![2; 6]);
            assert_eq!(m.high, vec![8; 6]);
        }
        other => panic!("wrong value: {:?}", other),
    }
}

#[test]
fn component_unknown_tag_rejects() {
    let mut list = vec![0x11, 0x01, 0x50];
    let mut content = vec![0x07, 0x00, 0x00, 0b001_0_0001];
    content.append(&mut list);
    content.push(0x20);
    content.push(0x45);
    let mut raw = vec![0x00, content.len() as u8];
    raw.extend_from_slice(&content);
    assert_eq!(
        QOSRules::decode(&raw).unwrap_err(),
        DecodeError::UnknownComponentType
    );
}

#[test]
fn component_past_contents_length_rejects() {
    // A single-port component needs 3 octets but the contents declare 2.
    let cs = vec![0x11, 0x1f];
    let mut list = vec![0x11, cs.len() as u8];
    list.extend_from_slice(&cs);
    let mut content = vec![0x07, 0x00, 0x00, 0b001_0_0001];
    content.extend_from_slice(&list);
    content.push(0x20);
    content.push(0x45);
    let mut raw = vec![0x00, content.len() as u8];
    raw.extend_from_slice(&content);
    assert_eq!(
        QOSRules::decode(&raw).unwrap_err(),
        DecodeError::TruncatedContainer
    );
}

#[test]
fn from_u8_mappings() {
    assert_eq!(
        RuleOperationCode::from_u8(1),
        RuleOperationCode::CreateNewQosRule
    );
    assert_eq!(
        RuleOperationCode::from_u8(6),
        RuleOperationCode::ModifyExistingQosRuleWithoutModifyPackerFilters
    );
    assert_eq!(RuleOperationCode::from_u8(0), RuleOperationCode::Reserved);
    assert_eq!(RuleOperationCode::from_u8(7), RuleOperationCode::Reserved);
    assert_eq!(
        PacketFilterComponentType::from_u8(0x01),
        PacketFilterComponentType::MatchAll
    );
    assert_eq!(
        PacketFilterComponentType::from_u8(0x29),
        PacketFilterComponentType::SourceMACAddressRange
    );
    assert_eq!(
        PacketFilterComponentType::from_u8(0x50),
        PacketFilterComponentType::Reserved
    );
    assert_eq!(PduAddressType::from_u8(1), PduAddressType::IPV4);
    assert_eq!(PduAddressType::from_u8(2), PduAddressType::IPV6);
    assert_eq!(PduAddressType::from_u8(3), PduAddressType::IPV4V6);
    assert_eq!(PduAddressType::from_u8(0), PduAddressType::Unknown);
    assert_eq!(
        SessionMessageType::from_u8(0xc2),
        SessionMessageType::EstablishmentAccept
    );
    assert_eq!(
        SessionMessageType::from_u8(0xd4),
        SessionMessageType::ReleaseComplete
    );
    assert_eq!(SessionMessageType::from_u8(0x01), SessionMessageType::Unknown);
    assert_eq!(SessionMessageType::default(), SessionMessageType::EstablishmentAccept);
}

#[test]
fn octet_string_text() {
    let os = OctetString {
        value: b"internet".to_vec(),
    };
    assert_eq!(os.to_string().unwrap(), "internet".to_string());
    let bad = OctetString {
        value: vec![0xff, 0xfe],
    };
    assert_eq!(bad.to_string().unwrap_err(), DecodeError::InvalidUtf8);
}

#[test]
fn octet_string_set_value() {
    let mut os = OctetString::default();
    assert_eq!(os.value.len(), 0);
    os.set_value(&[1, 2, 3, 4, 5], 1, 3);
    assert_eq!(os.value, vec![2, 3, 4]);
    assert_eq!(os.to_bytes_u8(), &[2, 3, 4]);
}

#[test]
fn dnn_display_well_formed_labels() {
    let mut v = vec![8u8];
    v.extend_from_slice(b"internet");
    v.push(6);
    v.extend_from_slice(b"mnc001");
    v.push(6);
    v.extend_from_slice(b"mcc001");
    v.push(4);
    v.extend_from_slice(b"gprs");
    let os = OctetString { value: v };
    assert_eq!(
        os.dnn_to_string().unwrap(),
        "internet.mnc001.mcc001.gprs".to_string()
    );
}

#[test]
fn dnn_display_long_label() {
    // A label of 33 octets: its length prefix (0x21, a printable value) must
    // act as a length, and the separator must come out as a dot.
    let mut v = vec![1u8, b'a', 33];
    v.extend_from_slice(&[b'b'; 33]);
    let os = OctetString { value: v };
    let mut expected = String::from("a.");
    expected.push_str(&"b".repeat(33));
    assert_eq!(os.dnn_to_string().unwrap(), expected);
}

#[test]
fn dnn_display_label_overrun_rejects() {
    // A label length running past the buffer is a typed error.
    let os = OctetString {
        value: vec![5, b'a', b'b'],
    };
    assert_eq!(os.dnn_to_string().unwrap_err(), DecodeError::OutOfBounds);
}

#[test]
fn dnn_display_keeps_label_octets() {
    // An octet inside a label stands as it is; only the length prefixes
    // separate labels.
    let os = OctetString {
        value: vec![3, b'a', 0x06, b'b'],
    };
    assert_eq!(os.dnn_to_string().unwrap(), "a\u{6}b".to_string());
}

#[test]
fn dnn_display_invalid_utf8_rejects() {
    let os = OctetString {
        value: vec![2, 0xff, 0x41],
    };
    assert_eq!(os.dnn_to_string().unwrap_err(), DecodeError::InvalidUtf8);
}

#[test]
fn dnn_display_empty() {
    let os = OctetString { value: vec![] };
    assert_eq!(os.dnn_to_string().unwrap(), String::new());
}

#[test]
fn defaults() {
    let t = PDUSessionType::default();
    assert_eq!(t.pdu_session_type_value, PduAddressType::IPV4);
    let a = PDUAddress::default();
    assert_eq!(a.pdu_address_information.value.len(), 0);
    let q = QOSFlowDescriptions::default();
    assert_eq!(q.qosflowdescriptionsnumber, 0);
    assert_eq!(q.qosflowdescriptionscontents.len(), 0);
}

#[test]
fn byte_reads() {
    let data = [0x12u8, 0x34, 0x56];
    assert_eq!(read_u8(&data, 0).unwrap(), (0x12, 1));
    assert_eq!(read_u8(&data, 3).unwrap_err(), DecodeError::OutOfBounds);
    assert_eq!(read_u16_be(&data, 1).unwrap(), (0x3456, 3));
    assert_eq!(read_u16_be(&data, 2).unwrap_err(), DecodeError::OutOfBounds);
    let (v, p) = read_slice(&data, 1, 2).unwrap();
    assert_eq!(v, vec![0x34, 0x56]);
    assert_eq!(p, 3);
    assert_eq!(read_slice(&data, 2, 2).unwrap_err(), DecodeError::OutOfBounds);
}

#[test]
fn network_if_mgm_scan() {
    // Unknown record skipped, then a create record with its value.
    let data = [0x22u8, 0x01, 0xaa, 0x00, 0x02, 0x07, 0x08];
    assert_eq!(
        tlv_decode_nr_network_if_mgm(&data),
        Some((0x00, vec![0x07, 0x08]))
    );
    // An update record.
    let data = [0x01u8, 0x01, 0x09];
    assert_eq!(tlv_decode_nr_network_if_mgm(&data), Some((0x01, vec![0x09])));
    // A destroy record carries no value.
    let data = [0x22u8, 0x00, 0xff, 0x00];
    assert_eq!(tlv_decode_nr_network_if_mgm(&data), Some((0xff, vec![])));
    // Nothing of interest.
    assert_eq!(tlv_decode_nr_network_if_mgm(&[0x22, 0x00]), None);
    assert_eq!(tlv_decode_nr_network_if_mgm(&[]), None);
    // A truncated create record finds nothing.
    assert_eq!(tlv_decode_nr_network_if_mgm(&[0x00, 0x05, 0x01]), None);
}

#[test]
fn exported_pdu_framing() {
    let framed = exported_pdu_frame(&[0x7e, 0x00]);
    assert_eq!(
        framed,
        vec![
            0x00, 0x0c, 0x00, 0x07, 0x6e, 0x61, 0x73, 0x2d, 0x35, 0x67, 0x73, 0x00, 0x00, 0x00,
            0x00, 0x7e, 0x00
        ]
    );
    assert_eq!(&framed[4..11], b"nas-5gs");
}

#[test]
fn itti_types() {
    assert_eq!(IttiTrxTag::NasDecoer, IttiTrxTag::NasDecoer);
    assert_ne!(IttiTrxTag::NasDecoer, IttiTrxTag::GtpUdp);
    let sdu = NasDecoerSdu { sdu: vec![1, 2, 3] };
    assert_eq!(sdu.clone().sdu, vec![1, 2, 3]);
}
