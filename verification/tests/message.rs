use nas_pdu_decoder::bytes::DecodeError;
use nas_pdu_decoder::pdu_accept::{
    parse_extended_pco, ExtProtoCfgOpts, OctetString, PDUAddress, PduAddressType,
    PduSessionEstablishmentAcceptMsg,
};
use nas_pdu_decoder::pdu_helper::SessionMessageType;
use nas_pdu_decoder::qos_rules::{
    PacketFilterComponentType, PacketFilterComponentValue, PacketFilterListEnum,
    RuleOperationCode,
};

/// A complete "PDU Session Establishment Accept" message: header, one QoS
/// rule, Session-AMBR, 5GSM cause, PDU address (IPv4), SNSSAI, QoS flow
/// descriptions, ePCO, DNN and one trailing unknown IE.
fn sample_message() -> Vec<u8> {
    vec![
        0x2e, 0x01, 0x01, 0xc2, 0x11, 0x00, 0x09, 0x01, 0x00, 0x06, 0x31, 0x3f,
        0x01, 0x01, 0xff, 0x01, 0x06, 0x06, 0x13, 0x88, 0x04, 0x7a, 0x12, 0x59,
        0x32, 0x29, 0x05, 0x01, 0xac, 0x1a, 0x64, 0x65, 0x22, 0x01, 0x01, 0x79,
        0x00, 0x06, 0x01, 0x20, 0x41, 0x01, 0x01, 0x09, 0x7b, 0x00, 0x18, 0x80,
        0x80, 0x21, 0x0a, 0x03, 0x00, 0x00, 0x0a, 0x81, 0x06, 0x08, 0x08, 0x08,
        0x08, 0x00, 0x0d, 0x04, 0x08, 0x08, 0x08, 0x08, 0x00, 0x11, 0x00, 0x25,
        0x1c, 0x09, 0x69, 0x6e, 0x74, 0x65, 0x72, 0x6e, 0x65, 0x74, 0x06, 0x6d,
        0x6e, 0x63, 0x30, 0x30, 0x31, 0x06, 0x6d, 0x63, 0x63, 0x30, 0x30, 0x31,
        0x04, 0x67, 0x70, 0x72, 0x73, 0x12, 0x01,
    ]
}

#[test]
fn end_to_end_header_fields() {
    let msg = PduSessionEstablishmentAcceptMsg::tlv_decode_pdu_session_establishment_accept(
        sample_message(),
    )
    .unwrap();
    assert_eq!(msg.extendedprotocoldiscriminator, 0x2e);
    assert_eq!(msg.pdusessionidentity, 0x01);
    assert_eq!(msg.proceduretransactionidentity, 0x01);
    assert_eq!(msg.messagetype, SessionMessageType::EstablishmentAccept);
    assert_eq!(
        msg.pdusessiontype.pdu_session_type_value,
        PduAddressType::IPV4
    );
    assert_eq!(msg.sscmode.ssc_mode_value, 1);
}

#[test]
fn end_to_end_qos_rule() {
    let msg = PduSessionEstablishmentAcceptMsg::tlv_decode_pdu_session_establishment_accept(
        sample_message(),
    )
    .unwrap();
    assert_eq!(msg.qosrules.lengthofqosrulesie, 9);
    assert_eq!(msg.qosrules.qosrulesie.len(), 1);
    let rule = &msg.qosrules.qosrulesie[0];
    assert_eq!(rule.qosruleidentifer, 0x01);
    assert_eq!(rule.lengthof_qo_srule, 6);
    assert_eq!(rule.numberofpacketfilters, 1);
    assert_eq!(rule.dqrbit, 1);
    assert_eq!(rule.ruleoperationcode, RuleOperationCode::CreateNewQosRule);
    assert_eq!(rule.qosruleprecedence, 0xff);
    assert_eq!(rule.qosflowidentifer, 1);
    assert_eq!(rule.segregation, 0);
    match &rule.packetfilterlist {
        PacketFilterListEnum::PacketFilterListUpdatePFList(update) => {
            assert_eq!(update.packet_filter_direction, 3);
            assert_eq!(update.packet_filter_id, 0x0f);
            assert_eq!(update.length_packet_filter_contents, 1);
            assert_eq!(update.packet_filter_content_list.len(), 1);
            let c = &update.packet_filter_content_list[0];
            assert_eq!(
                c.packet_filter_content_type,
                PacketFilterComponentType::MatchAll
            );
            assert!(matches!(
                c.packet_filter_content_value,
                PacketFilterComponentValue::MatchAll
            ));
        }
        other => panic!("wrong filter list shape: {:?}", other),
    }
}

#[test]
fn end_to_end_pdu_address() {
    let msg = PduSessionEstablishmentAcceptMsg::tlv_decode_pdu_session_establishment_accept(
        sample_message(),
    )
    .unwrap();
    assert_eq!(
        msg.pduaddress.pdu_session_type_value,
        PduAddressType::IPV4
    );
    assert_eq!(
        msg.pduaddress.pdu_address_information.value,
        vec![0xac, 0x1a, 0x64, 0x65]
    );
    let v4 = msg.get_ipv4().unwrap();
    assert_eq!(v4.octets, vec![172, 26, 100, 101]);
    assert!(msg.get_ipv6().is_none());
}

#[test]
fn end_to_end_dnn() {
    let msg = PduSessionEstablishmentAcceptMsg::tlv_decode_pdu_session_establishment_accept(
        sample_message(),
    )
    .unwrap();
    // The DNN octets are retained verbatim.
    let mut expected = vec![9u8];
    expected.extend_from_slice(b"internet");
    expected.push(6);
    expected.extend_from_slice(b"mnc001");
    expected.push(6);
    expected.extend_from_slice(b"mcc001");
    expected.push(4);
    expected.extend_from_slice(b"gprs");
    assert_eq!(msg.dnn.value, expected);
    // This message misdeclares its first label length (9 octets for the
    // 8-octet label "internet"), so reading by the label-length prefixes
    // runs a later prefix past the buffer: a typed error, never a panic.
    assert_eq!(msg.get_dnn_name().unwrap_err(), DecodeError::OutOfBounds);
}

#[test]
fn end_to_end_dnn_with_consistent_lengths() {
    // The same message with the DNN's first label length corrected to 8
    // displays as the dot-joined labels.
    let mut msg_bytes = sample_message();
    assert_eq!(msg_bytes[73], 9);
    msg_bytes[73] = 8;
    let msg = PduSessionEstablishmentAcceptMsg::tlv_decode_pdu_session_establishment_accept(
        msg_bytes,
    )
    .unwrap();
    assert_eq!(
        msg.get_dnn_name().unwrap(),
        "internet.mnc001.mcc001.gprs".to_string()
    );
}

#[test]
fn end_to_end_epco() {
    let msg = PduSessionEstablishmentAcceptMsg::tlv_decode_pdu_session_establishment_accept(
        sample_message(),
    )
    .unwrap();
    let epco = &msg.extendedprotocolconfigurationoptions;
    assert_eq!(epco.length, 0x18);
    assert_eq!(epco.pco_units.len(), 3);
    assert_eq!(epco.pco_units[0].container_id, 0x8021);
    assert_eq!(epco.pco_units[0].container_len, 10);
    assert_eq!(
        epco.pco_units[0].container_content,
        vec![0x03, 0x00, 0x00, 0x0a, 0x81, 0x06, 0x08, 0x08, 0x08, 0x08]
    );
    assert_eq!(epco.pco_units[1].container_id, 0x000d);
    assert_eq!(epco.pco_units[1].container_content, vec![8, 8, 8, 8]);
    assert_eq!(epco.pco_units[2].container_id, 0x0011);
    assert_eq!(epco.pco_units[2].container_len, 0);
    // The DNS data in this message is an IPv4 literal (container 0x000d);
    // the 16-octet IPv6 lookup (container 0x0003) must report "absent".
    assert!(msg.get_dns_v6_address().is_none());
    // No P-CSCF container either: the accessor falls back to loopback.
    let pcscf = msg.get_pcscf_v6_address();
    assert_eq!(
        pcscf.octets,
        vec![0, 0, 0, 0, 0, 0, 0, 0, 0, 0, 0, 0, 0, 0, 0, 1]
    );
}

#[test]
fn decode_twice_is_equal() {
    let m1 = PduSessionEstablishmentAcceptMsg::tlv_decode_pdu_session_establishment_accept(
        sample_message(),
    )
    .unwrap();
    let m2 = PduSessionEstablishmentAcceptMsg::tlv_decode_pdu_session_establishment_accept(
        sample_message(),
    )
    .unwrap();
    assert_eq!(m1, m2);
}

#[test]
fn truncations_never_panic_and_mandatory_part_rejects() {
    let msg = sample_message();
    // Fixed header (5) + QoS-Rules length and span (2 + 9) + Session-AMBR
    // length and span (1 + 6): 23 octets of mandatory part.
    for n in 0..msg.len() {
        let r = PduSessionEstablishmentAcceptMsg::tlv_decode_pdu_session_establishment_accept(
            msg[..n].to_vec(),
        );
        if n < 23 {
            assert!(r.is_err(), "truncation to {} octets decoded", n);
        }
    }
    // Cuts inside a retained optional IE are errors...
    for n in [26, 28, 47, 60, 72, 90, 102] {
        let r = PduSessionEstablishmentAcceptMsg::tlv_decode_pdu_session_establishment_accept(
            msg[..n].to_vec(),
        );
        assert_eq!(r.unwrap_err(), DecodeError::OutOfBounds);
    }
    // ...while a cut at an IE boundary is a legal "no more optional IEs" end.
    for n in [23, 25, 32, 35, 44, 71, 101] {
        let r = PduSessionEstablishmentAcceptMsg::tlv_decode_pdu_session_establishment_accept(
            msg[..n].to_vec(),
        );
        assert!(r.is_ok(), "cut at IE boundary {} did not decode", n);
    }
}

#[test]
fn empty_and_short_inputs_reject() {
    for n in 0..8 {
        let r = PduSessionEstablishmentAcceptMsg::tlv_decode_pdu_session_establishment_accept(
            vec![0x2e; n],
        );
        assert!(r.is_err());
    }
}

#[test]
fn minimal_message_decodes() {
    // Header, empty QoS rules, empty Session-AMBR, no optional IEs.
    let msg = PduSessionEstablishmentAcceptMsg::tlv_decode_pdu_session_establishment_accept(
        vec![0x2e, 0x01, 0x01, 0xc2, 0x11, 0x00, 0x00, 0x00],
    )
    .unwrap();
    assert_eq!(msg.qosrules.qosrulesie.len(), 0);
    assert_eq!(msg.dnn.value.len(), 0);
    assert_eq!(msg.get_dnn_name().unwrap(), String::new());
    assert!(msg.get_ipv4().is_none());
    assert_eq!(msg.extendedprotocolconfigurationoptions.pco_units.len(), 0);
}

#[test]
fn new_message_has_defaults() {
    let msg = PduSessionEstablishmentAcceptMsg::new();
    assert_eq!(msg.messagetype, SessionMessageType::EstablishmentAccept);
    assert_eq!(
        msg.pdusessiontype.pdu_session_type_value,
        PduAddressType::IPV4
    );
    assert_eq!(msg.qosrules.lengthofqosrulesie, 0);
    assert_eq!(msg.dnn.value.len(), 0);
}

#[test]
fn address_width_dispatch() {
    let mk = |info: Vec<u8>| {
        let mut msg = PduSessionEstablishmentAcceptMsg::new();
        msg.pduaddress = PDUAddress {
            pdu_session_type_value: PduAddressType::IPV4,
            pdu_address_information: OctetString { value: info },
        };
        msg
    };
    // 4 octets: IPv4 only.
    let m = mk(vec![10, 0, 0, 1]);
    assert_eq!(m.get_ipv4().unwrap().octets, vec![10, 0, 0, 1]);
    assert!(m.get_ipv6().is_none());
    // 8 octets: IPv6 interface identifier only, zero-padded to 16.
    let m = mk(vec![1, 2, 3, 4, 5, 6, 7, 8]);
    assert!(m.get_ipv4().is_none());
    assert_eq!(
        m.get_ipv6().unwrap().octets,
        vec![0, 0, 0, 0, 0, 0, 0, 0, 1, 2, 3, 4, 5, 6, 7, 8]
    );
    // 12 octets: IPv6 interface identifier then IPv4.
    let m = mk(vec![1, 2, 3, 4, 5, 6, 7, 8, 10, 0, 0, 2]);
    assert_eq!(m.get_ipv4().unwrap().octets, vec![10, 0, 0, 2]);
    assert_eq!(
        m.get_ipv6().unwrap().octets,
        vec![0, 0, 0, 0, 0, 0, 0, 0, 1, 2, 3, 4, 5, 6, 7, 8]
    );
    // Any other width carries neither address.
    let m = mk(vec![1, 2, 3, 4, 5]);
    assert!(m.get_ipv4().is_none());
    assert!(m.get_ipv6().is_none());
    let m = mk(vec![]);
    assert!(m.get_ipv4().is_none());
    assert!(m.get_ipv6().is_none());
}

#[test]
fn epco_dns_v6_present() {
    // ePCO with a DNS IPv6 container (0x0003) of exactly 16 octets.
    let mut raw = vec![0x7b, 0x00, 0x14, 0x80];
    raw.extend_from_slice(&[0x00, 0x03, 0x10]);
    raw.extend_from_slice(&[0x20, 0x01, 0x0d, 0xb8, 0, 0, 0, 0, 0, 0, 0, 0, 0, 0, 0, 0x53]);
    let epco = parse_extended_pco(&raw).unwrap();
    let addr = epco.get_dns_v6_addr().unwrap();
    assert_eq!(
        addr.octets,
        vec![0x20, 0x01, 0x0d, 0xb8, 0, 0, 0, 0, 0, 0, 0, 0, 0, 0, 0, 0x53]
    );
    assert!(epco.get_pcscf_v6_addr().is_none());
}

#[test]
fn pcscf_v6_present() {
    let mut raw = vec![0x7b, 0x00, 0x14, 0x80, 0x00, 0x01, 0x10];
    raw.extend_from_slice(&[0xfd; 16]);
    let mut msg = PduSessionEstablishmentAcceptMsg::new();
    msg.extendedprotocolconfigurationoptions = parse_extended_pco(&raw).unwrap();
    assert_eq!(msg.get_pcscf_v6_address().octets, vec![0xfd; 16]);
}

#[test]
fn epco_wrong_length_is_absent_not_error() {
    // A DNS IPv6 container with 4 content octets: "absent", not an error.
    let raw = vec![0x7b, 0x00, 0x08, 0x80, 0x00, 0x03, 0x04, 8, 8, 8, 8];
    let epco = parse_extended_pco(&raw).unwrap();
    assert!(epco.get_dns_v6_addr().is_none());
}

#[test]
fn epco_missing_container_is_absent_not_error() {
    let raw = vec![0x7b, 0x00, 0x08, 0x80, 0x00, 0x11, 0x04, 1, 2, 3, 4];
    let epco = parse_extended_pco(&raw).unwrap();
    assert!(epco.get_dns_v6_addr().is_none());
    assert!(epco.get_pcscf_v6_addr().is_none());
}

#[test]
fn epco_first_matching_container_wins() {
    // Two P-CSCF containers: the first (wrong length) decides the lookup.
    let mut raw = vec![0x7b, 0x00, 0x1b, 0x80];
    raw.extend_from_slice(&[0x00, 0x01, 0x04, 9, 9, 9, 9]);
    raw.extend_from_slice(&[0x00, 0x01, 0x10]);
    raw.extend_from_slice(&[1; 16]);
    let epco = parse_extended_pco(&raw).unwrap();
    assert!(epco.get_pcscf_v6_addr().is_none());
}

#[test]
fn epco_truncated_container_rejects() {
    // Declared container length runs past the IE's declared length.
    let raw = vec![0x7b, 0x00, 0x06, 0x80, 0x00, 0x03, 0x10, 1, 2];
    assert_eq!(
        parse_extended_pco(&raw).unwrap_err(),
        DecodeError::TruncatedContainer
    );
}

#[test]
fn epco_declared_length_past_buffer_rejects() {
    let raw = vec![0x7b, 0x00, 0x20, 0x80];
    assert_eq!(parse_extended_pco(&raw).unwrap_err(), DecodeError::OutOfBounds);
}

#[test]
fn epco_empty_is_ok() {
    let epco = parse_extended_pco(&[0x7b, 0x00, 0x00]).unwrap();
    assert_eq!(epco.length, 0);
    assert_eq!(epco.pco_units.len(), 0);
    let epco = ExtProtoCfgOpts::default();
    assert!(epco.get_dns_v6_addr().is_none());
}
