//! The "PDU Session Establishment Accept" message: its information elements
//! and the top-level decoder.
//!
//! The message is a fixed five-octet header, the QoS-Rules IE, the
//! Session-AMBR IE (skipped by its declared length), and then a flat list of
//! optional IEs in three encodings: TLV-E (2-octet length), TLV (1-octet
//! length) and TV (no length octet). Of the optional IEs the decoder retains
//! the PDU address, the DNN and the extended protocol configuration options
//! (ePCO); every other tag is skipped over by its declared span.

use vstd::prelude::*;

use crate::bytes::{be16, copy_range, DecodeError};
use crate::pdu_helper::{
    spec_message_type, ExtendedProtocolDiscriminator, PDUSessionIdentity,
    ProcedureTransactionIdentity, SessionMessageType,
};
use crate::qos_rules::{spec_decode_qos_rules, QOSRules, SpecQosRules};

verus! {

// ---------------------------------------------------------------------------
// Extended protocol configuration options (ePCO).
// ---------------------------------------------------------------------------

/// One ePCO container: identifier, declared content length, content octets.
#[derive(Debug, Clone, PartialEq)]
pub struct ParamContainer {
    pub container_id: u16,
    pub container_len: u8,
    pub container_content: Vec<u8>,
}

/// The decoded ePCO IE: its declared length and its containers.
#[derive(Debug, Clone, PartialEq)]
pub struct ExtProtoCfgOpts {
    pub length: u16,
    pub pco_units: Vec<ParamContainer>,
}

/// An IPv6 address as its sixteen octets.
#[derive(Debug, Clone, PartialEq)]
pub struct Ipv6Address {
    pub octets: Vec<u8>,
}

/// An IPv4 address as its four octets.
#[derive(Debug, Clone, PartialEq)]
pub struct Ipv4Address {
    pub octets: Vec<u8>,
}

impl View for Ipv6Address {
    type V = Seq<u8>;

    open spec fn view(&self) -> Seq<u8> {
        self.octets@
    }
}

impl View for Ipv4Address {
    type V = Seq<u8>;

    open spec fn view(&self) -> Seq<u8> {
        self.octets@
    }
}

/// Spec-level ePCO container.
pub struct SpecContainer {
    pub id: u16,
    pub len: u8,
    pub content: Seq<u8>,
}

/// Spec-level ePCO IE.
pub struct SpecEpco {
    pub length: u16,
    pub containers: Seq<SpecContainer>,
}

impl View for ParamContainer {
    type V = SpecContainer;

    open spec fn view(&self) -> SpecContainer {
        SpecContainer {
            id: self.container_id,
            len: self.container_len,
            content: self.container_content@,
        }
    }
}

/// The spec-level image of a decoded container list.
pub open spec fn view_containers(l: Seq<ParamContainer>) -> Seq<SpecContainer> {
    l.map_values(|c: ParamContainer| c@)
}

impl View for ExtProtoCfgOpts {
    type V = SpecEpco;

    open spec fn view(&self) -> SpecEpco {
        SpecEpco { length: self.length, containers: view_containers(self.pco_units@) }
    }
}

/// Decode ePCO containers from `i` until exactly `end`: 2-octet identifier,
/// 1-octet length, then that many content octets.
pub open spec fn spec_containers(s: Seq<u8>, i: int, end: int) -> Result<
    Seq<SpecContainer>,
    DecodeError,
>
    decreases end - i,
{
    if i >= end {
        Ok(Seq::empty())
    } else if i + 3 > end {
        Err(DecodeError::TruncatedContainer)
    } else {
        let cl = s[i + 2];
        if i + 3 + cl > end {
            Err(DecodeError::TruncatedContainer)
        } else {
            match spec_containers(s, i + 3 + cl, end) {
                Err(e) => Err(e),
                Ok(rest) => Ok(
                    seq![
                        SpecContainer {
                            id: be16(s[i], s[i + 1]),
                            len: cl,
                            content: s.subrange(i + 3, i + 3 + cl),
                        },
                    ] + rest,
                ),
            }
        }
    }
}

/// Decode a whole ePCO IE from its raw octets, the IE's own 1-octet type
/// field and 2-octet length header included. The octet after the header (the
/// configuration-protocol octet) is skipped; containers follow until the end
/// of the declared length.
pub open spec fn spec_parse_epco(s: Seq<u8>) -> Result<SpecEpco, DecodeError> {
    if s.len() < 3 {
        Err(DecodeError::OutOfBounds)
    } else {
        let l = be16(s[1], s[2]);
        if 3 + l > s.len() {
            Err(DecodeError::OutOfBounds)
        } else {
            match spec_containers(s, 4, 3 + l) {
                Err(e) => Err(e),
                Ok(cs) => Ok(SpecEpco { length: l, containers: cs }),
            }
        }
    }
}

/// Decode the ePCO IE from its raw octets, its own type and length header
/// included. A container whose declared content runs past the IE's declared
/// length is a truncation error; a declared length that exceeds the buffer
/// is out of bounds.
pub fn parse_extended_pco(data: &[u8]) -> (r: Result<ExtProtoCfgOpts, DecodeError>)
    ensures
        match r {
            Ok(p) => spec_parse_epco(data@) == Ok::<SpecEpco, DecodeError>(p@),
            Err(e) => spec_parse_epco(data@) == Err::<SpecEpco, DecodeError>(e),
        },
{
    if data.len() < 3 {
        return Err(DecodeError::OutOfBounds);
    }
    let length = ((data[1] as u16) << 8) | (data[2] as u16);
    if data.len() - 3 < length as usize {
        return Err(DecodeError::OutOfBounds);
    }
    let end = 3 + length as usize;
    let mut units: Vec<ParamContainer> = Vec::new();
    let mut i: usize = 4;
    proof {
        assert(view_containers(units@) =~= Seq::<SpecContainer>::empty());
    }
    while i < end
        invariant
            end <= data@.len(),
            4 <= i,
            // a declared length of zero leaves no container region: the
            // first container offset then already lies one past its end
            i <= end || i == end + 1,
            length == be16(data@[1], data@[2]),
            end == 3 + length as usize,
            data@.len() >= 3,
            spec_containers(data@, 4, end as int) == match spec_containers(
                data@,
                i as int,
                end as int,
            ) {
                Ok(rest) => Ok::<Seq<SpecContainer>, DecodeError>(
                    view_containers(units@) + rest,
                ),
                Err(e) => Err::<Seq<SpecContainer>, DecodeError>(e),
            },
        decreases end - i,
    {
        if end - i < 3 {
            return Err(DecodeError::TruncatedContainer);
        }
        let cl = data[i + 2];
        if end - (i + 3) < cl as usize {
            return Err(DecodeError::TruncatedContainer);
        }
        let next = i + 3 + cl as usize;
        let unit = ParamContainer {
            container_id: ((data[i] as u16) << 8) | (data[i + 1] as u16),
            container_len: cl,
            container_content: copy_range(data, i + 3, next),
        };
        proof {
            assert(spec_containers(data@, i as int, end as int) == match spec_containers(
                data@,
                next as int,
                end as int,
            ) {
                Ok(rest) => Ok::<Seq<SpecContainer>, DecodeError>(seq![unit@] + rest),
                Err(e) => Err::<Seq<SpecContainer>, DecodeError>(e),
            });
            assert(view_containers(units@.push(unit)) =~= view_containers(units@) + seq![unit@]);
            assert forall|rest: Seq<SpecContainer>|
                view_containers(units@) + (seq![unit@] + rest) =~= view_containers(units@.push(unit))
                    + rest by {}
        }
        units.push(unit);
        i = next;
    }
    proof {
        assert(spec_containers(data@, i as int, end as int) == Ok::<
            Seq<SpecContainer>,
            DecodeError,
        >(Seq::empty()));
        assert(view_containers(units@) + Seq::<SpecContainer>::empty() =~= view_containers(
            units@,
        ));
    }
    Ok(ExtProtoCfgOpts { length, pco_units: units })
}

// ---------------------------------------------------------------------------
// Semantic lookups over the decoded containers.
// ---------------------------------------------------------------------------

/// The first container with the given identifier, if any.
pub open spec fn spec_find_container(cs: Seq<SpecContainer>, id: u16) -> Option<SpecContainer>
    decreases cs.len(),
{
    if cs.len() == 0 {
        None
    } else if cs[0].id == id {
        Some(cs[0])
    } else {
        spec_find_container(cs.skip(1), id)
    }
}

/// The IPv6 address carried by the first container with the given
/// identifier: present exactly when that container exists and holds sixteen
/// content octets; any other content length is "absent", not an error.
pub open spec fn spec_v6_lookup(cs: Seq<SpecContainer>, id: u16) -> Option<Seq<u8>> {
    match spec_find_container(cs, id) {
        None => None,
        Some(c) => if c.content.len() == 16 {
            Some(c.content)
        } else {
            None
        },
    }
}

/// Scanning from the front, the first match at or past `i` is the first
/// match of the whole list when no earlier container matches.
proof fn lemma_find_from(cs: Seq<SpecContainer>, id: u16, i: int)
    requires
        0 <= i <= cs.len(),
        forall|k: int| 0 <= k < i ==> cs[k].id != id,
    ensures
        spec_find_container(cs, id) == spec_find_container(cs.skip(i), id),
    decreases i,
{
    if i > 0 {
        assert(cs.skip(i - 1).len() > 0);
        assert(cs.skip(i - 1)[0] == cs[i - 1]);
        assert(cs.skip(i - 1).skip(1) =~= cs.skip(i));
        lemma_find_from(cs, id, i - 1);
    } else {
        assert(cs.skip(0) =~= cs);
    }
}

impl ParamContainer {
    /// The container's content as an IPv6 address, when it holds exactly
    /// sixteen octets; anything else is "absent".
    pub fn to_ipv6_addr(&self) -> (r: Option<Ipv6Address>)
        ensures
            match r {
                Some(a) => self@.content.len() == 16 && a@ == self@.content,
                None => self@.content.len() != 16,
            },
    {
        if self.container_content.len() == 16 {
            Some(
                Ipv6Address {
                    octets: copy_range(self.container_content.as_slice(), 0, 16),
                },
            )
        } else {
            None
        }
    }
}

impl ExtProtoCfgOpts {
    /// An empty ePCO: no containers.
    pub fn default() -> (r: Self)
        ensures
            r@ == (SpecEpco { length: 0, containers: Seq::<SpecContainer>::empty() }),
    {
        let r = ExtProtoCfgOpts { length: 0, pco_units: Vec::new() };
        proof {
            assert(view_containers(r.pco_units@) =~= Seq::<SpecContainer>::empty());
        }
        r
    }

    /// The IPv6 address in the first container with identifier `id`, when
    /// that container holds exactly sixteen octets.
    fn lookup_v6(&self, id: u16) -> (r: Option<Ipv6Address>)
        ensures
            match r {
                Some(a) => spec_v6_lookup(self@.containers, id) == Some(a@),
                None => spec_v6_lookup(self@.containers, id) is None,
            },
    {
        let ghost cs = self@.containers;
        let n = self.pco_units.len();
        let mut i: usize = 0;
        while i < n
            invariant
                n == self.pco_units.len(),
                cs == self@.containers,
                i <= n,
                cs.len() == n,
                forall|k: int| 0 <= k < i ==> cs[k].id != id,
            decreases n - i,
        {
            proof {
                assert(cs[i as int] == self.pco_units@[i as int]@);
            }
            if self.pco_units[i].container_id == id {
                proof {
                    lemma_find_from(cs, id, i as int);
                    assert(cs.skip(i as int)[0] == cs[i as int]);
                    assert(spec_find_container(cs, id) == Some(cs[i as int]));
                }
                return self.pco_units[i].to_ipv6_addr();
            }
            i = i + 1;
        }
        proof {
            lemma_find_from(cs, id, n as int);
            assert(cs.skip(n as int).len() == 0);
        }
        None
    }

    /// The P-CSCF IPv6 address: container identifier 0x0001, sixteen content
    /// octets required; absent otherwise.
    pub fn get_pcscf_v6_addr(&self) -> (r: Option<Ipv6Address>)
        ensures
            match r {
                Some(a) => spec_v6_lookup(self@.containers, 0x0001) == Some(a@),
                None => spec_v6_lookup(self@.containers, 0x0001) is None,
            },
    {
        self.lookup_v6(0x0001)
    }

    /// The DNS-server IPv6 address: container identifier 0x0003, sixteen
    /// content octets required; absent otherwise.
    pub fn get_dns_v6_addr(&self) -> (r: Option<Ipv6Address>)
        ensures
            match r {
                Some(a) => spec_v6_lookup(self@.containers, 0x0003) == Some(a@),
                None => spec_v6_lookup(self@.containers, 0x0003) is None,
            },
    {
        self.lookup_v6(0x0003)
    }
}

/// Asking for an address that no container carries is "absent", never an
/// error: with no container of the given identifier the lookup is `None`.
pub proof fn lemma_missing_container_absent(cs: Seq<SpecContainer>, id: u16)
    requires
        forall|k: int| 0 <= k < cs.len() ==> cs[k].id != id,
    ensures
        spec_v6_lookup(cs, id) is None,
    decreases cs.len(),
{
    if cs.len() > 0 {
        assert(forall|k: int| 0 <= k < cs.skip(1).len() ==> cs.skip(1)[k] == cs[k + 1]);
        lemma_missing_container_absent(cs.skip(1), id);
    }
}

// ---------------------------------------------------------------------------
// PDU address.
// ---------------------------------------------------------------------------

/// The PDU session address type, a 3-bit field.
#[derive(Debug, Clone, Copy, PartialEq, Eq, Structural)]
pub enum PduAddressType {
    IPV4,
    IPV6,
    IPV4V6,
    Unknown,
}

/// The address type named by a 3-bit field value.
pub open spec fn spec_pdu_address_type(val: u8) -> PduAddressType {
    if val == 1 {
        PduAddressType::IPV4
    } else if val == 2 {
        PduAddressType::IPV6
    } else if val == 3 {
        PduAddressType::IPV4V6
    } else {
        PduAddressType::Unknown
    }
}

impl PduAddressType {
    /// Map a 3-bit address-type field to its named value.
    pub fn from_u8(val: u8) -> (r: PduAddressType)
        ensures
            r == spec_pdu_address_type(val),
    {
        match val {
            1 => PduAddressType::IPV4,
            2 => PduAddressType::IPV6,
            3 => PduAddressType::IPV4V6,
            _ => PduAddressType::Unknown,
        }
    }
}

/// The selected PDU session type octet fields.
#[derive(Debug, Clone, Copy, PartialEq, Eq, Structural)]
pub struct PDUSessionType {
    pub pdu_session_type_value: PduAddressType,
    pub spare: u8,
}

impl PDUSessionType {
    /// The value before any octet is decoded: IPv4.
    pub fn default() -> (r: Self)
        ensures
            r == (PDUSessionType { pdu_session_type_value: PduAddressType::IPV4, spare: 0u8 }),
    {
        PDUSessionType { pdu_session_type_value: PduAddressType::IPV4, spare: 0 }
    }
}

/// The selected SSC mode octet fields.
#[derive(Debug, Clone, Copy, PartialEq, Eq, Structural)]
pub struct SSCMode {
    pub ssc_mode_value: u8,
    pub spare: u8,
}

/// An octet buffer owned by the structure that holds it.
#[derive(Debug, Clone, PartialEq)]
pub struct OctetString {
    pub value: Vec<u8>,
}

impl View for OctetString {
    type V = Seq<u8>;

    open spec fn view(&self) -> Seq<u8> {
        self.value@
    }
}

/// The display form of a DNN value, read from offset `i`: the value is a
/// sequence of length-prefixed labels (one length octet, then that many
/// label octets), and the display form joins the labels with dots. A label
/// length that runs past the end of the value is an out-of-bounds error; an
/// empty value displays as the empty sequence.
pub open spec fn spec_dnn_display(s: Seq<u8>, i: int) -> Result<Seq<u8>, DecodeError>
    decreases s.len() - i,
{
    if i >= s.len() {
        Ok(Seq::empty())
    } else {
        let n = s[i];
        if i + 1 + n > s.len() {
            Err(DecodeError::OutOfBounds)
        } else {
            match spec_dnn_display(s, i + 1 + n) {
                Err(e) => Err(e),
                Ok(rest) => Ok(
                    if i + 1 + n >= s.len() {
                        s.subrange(i + 1, i + 1 + n)
                    } else {
                        s.subrange(i + 1, i + 1 + n) + seq![0x2eu8] + rest
                    },
                ),
            }
        }
    }
}

/// Relies on `String::from_utf8` of std: it returns the UTF-8 decoding of
/// the given bytes exactly when they are valid UTF-8, and an error
/// otherwise; `vstd::utf8` states what those are.
#[verifier::external_body]
fn string_from_utf8(v: Vec<u8>) -> (r: Result<String, DecodeError>)
    ensures
        match r {
            Ok(s) => vstd::utf8::valid_utf8(v@) && s@ == vstd::utf8::decode_utf8(v@),
            Err(e) => !vstd::utf8::valid_utf8(v@) && e == DecodeError::InvalidUtf8,
        },
{
    match String::from_utf8(v) {
        Ok(s) => Ok(s),
        Err(_) => Err(DecodeError::InvalidUtf8),
    }
}

impl OctetString {
    /// An empty buffer.
    pub fn default() -> (r: Self)
        ensures
            r@ == Seq::<u8>::empty(),
    {
        OctetString { value: Vec::new() }
    }

    /// Replace the buffer with a copy of `length` octets of `data` starting
    /// at `start_index`. The range must lie inside `data`.
    pub fn set_value(&mut self, data: &[u8], start_index: usize, length: usize)
        requires
            start_index + length <= data@.len(),
        ensures
            final(self)@ == data@.subrange(start_index as int, start_index + length),
    {
        // binding the buffer length as a machine word bounds the range sum
        let n: usize = data.len();
        proof {
            assert(start_index + length <= n);
        }
        self.value = copy_range(data, start_index, start_index + length);
    }

    /// The buffer decoded as UTF-8 text; bytes that are not valid UTF-8 are
    /// an `InvalidUtf8` error.
    pub fn to_string(&self) -> (r: Result<String, DecodeError>)
        ensures
            match r {
                Ok(t) => vstd::utf8::valid_utf8(self@) && t@ == vstd::utf8::decode_utf8(self@),
                Err(e) => !vstd::utf8::valid_utf8(self@) && e == DecodeError::InvalidUtf8,
            },
    {
        let c = copy_range(self.value.as_slice(), 0, self.value.len());
        proof {
            assert(c@ =~= self@);
        }
        string_from_utf8(c)
    }

    /// The buffer read as a DNN: length-prefixed labels joined with dots
    /// (`spec_dnn_display`), and the joined labels must be UTF-8 text. A
    /// label length that runs past the buffer is out of bounds.
    pub fn dnn_to_string(&self) -> (r: Result<String, DecodeError>)
        ensures
            match r {
                Ok(t) => match spec_dnn_display(self@, 0) {
                    Ok(d) => vstd::utf8::valid_utf8(d) && t@ == vstd::utf8::decode_utf8(d),
                    Err(_) => false,
                },
                Err(e) => match spec_dnn_display(self@, 0) {
                    Ok(d) => !vstd::utf8::valid_utf8(d) && e == DecodeError::InvalidUtf8,
                    Err(e2) => e == e2,
                },
            },
    {
        let n = self.value.len();
        let mut display: Vec<u8> = Vec::new();
        let mut i: usize = 0;
        while i < n
            invariant
                n == self.value.len(),
                i <= n,
                i == 0 ==> display@ == Seq::<u8>::empty(),
                spec_dnn_display(self@, 0) == match spec_dnn_display(self@, i as int) {
                    Err(e) => Err::<Seq<u8>, DecodeError>(e),
                    Ok(rest) => Ok::<Seq<u8>, DecodeError>(
                        if i == 0 {
                            rest
                        } else if i as int >= self@.len() {
                            display@
                        } else {
                            display@ + seq![0x2eu8] + rest
                        },
                    ),
                },
            decreases n - i,
        {
            let l = self.value[i] as usize;
            if n - (i + 1) < l {
                return Err(DecodeError::OutOfBounds);
            }
            let next = i + 1 + l;
            let ghost pre = display@;
            let ghost lab = self@.subrange(i as int + 1, next as int);
            if i > 0 {
                display.push(0x2e);
            }
            display.extend_from_slice(
                vstd::slice::slice_subrange(self.value.as_slice(), i + 1, next),
            );
            proof {
                if i > 0 {
                    assert(display@ =~= pre + seq![0x2eu8] + lab);
                } else {
                    assert(display@ =~= lab);
                }
                assert(spec_dnn_display(self@, i as int) == match spec_dnn_display(
                    self@,
                    next as int,
                ) {
                    Err(e) => Err::<Seq<u8>, DecodeError>(e),
                    Ok(rest) => Ok::<Seq<u8>, DecodeError>(
                        if next as int >= self@.len() {
                            lab
                        } else {
                            lab + seq![0x2eu8] + rest
                        },
                    ),
                });
                let r2 = spec_dnn_display(self@, next as int);
                if r2 is Ok && next < n {
                    let rest2 = r2->Ok_0;
                    if i > 0 {
                        assert(pre + seq![0x2eu8] + (lab + seq![0x2eu8] + rest2) =~= display@
                            + seq![0x2eu8] + rest2);
                    } else {
                        assert(lab + seq![0x2eu8] + rest2 =~= display@ + seq![0x2eu8] + rest2);
                    }
                }
            }
            i = next;
        }
        proof {
            assert(spec_dnn_display(self@, i as int) == Ok::<Seq<u8>, DecodeError>(Seq::empty()));
            if i == 0 {
                assert(display@ =~= Seq::<u8>::empty());
            }
        }
        string_from_utf8(display)
    }

    /// The buffer's octets.
    pub fn to_bytes_u8(&self) -> (r: &[u8])
        ensures
            r@ == self@,
    {
        self.value.as_slice()
    }
}

/// The PDU address IE: the address type selected by the first value octet's
/// low three bits, and the remaining value octets as the address payload.
#[derive(Debug, Clone, PartialEq)]
pub struct PDUAddress {
    pub pdu_session_type_value: PduAddressType,
    pub pdu_address_information: OctetString,
}

/// Spec-level PDU address.
pub struct SpecPduAddress {
    pub ty: PduAddressType,
    pub info: Seq<u8>,
}

impl View for PDUAddress {
    type V = SpecPduAddress;

    open spec fn view(&self) -> SpecPduAddress {
        SpecPduAddress {
            ty: self.pdu_session_type_value,
            info: self.pdu_address_information@,
        }
    }
}

impl PDUAddress {
    /// The value before the IE is decoded: IPv4 with no payload.
    pub fn default() -> (r: Self)
        ensures
            r@ == (SpecPduAddress { ty: PduAddressType::IPV4, info: Seq::<u8>::empty() }),
    {
        PDUAddress {
            pdu_session_type_value: PduAddressType::IPV4,
            pdu_address_information: OctetString::default(),
        }
    }
}

/// The IPv4 address carried by an address payload: the four octets when the
/// payload is IPv4-only, the last four when it is IPv4v6, absent otherwise.
pub open spec fn spec_get_ipv4(info: Seq<u8>) -> Option<Seq<u8>> {
    if info.len() == 4 {
        Some(info)
    } else if info.len() == 12 {
        Some(info.subrange(8, 12))
    } else {
        None
    }
}

/// The IPv6 address carried by an address payload: the eight-octet interface
/// identifier padded to sixteen octets when the payload is IPv6-only or
/// IPv4v6, absent otherwise.
pub open spec fn spec_get_ipv6(info: Seq<u8>) -> Option<Seq<u8>> {
    if info.len() == 8 || info.len() == 12 {
        Some(Seq::new(8, |k: int| 0u8) + info.subrange(0, 8))
    } else {
        None
    }
}

/// PDU address width dispatch: a four-octet payload decodes to IPv4 only, an
/// eight-octet payload to IPv6 only, a twelve-octet payload to both; any
/// other width yields neither address.
pub proof fn lemma_address_width_dispatch(info: Seq<u8>)
    ensures
        info.len() == 4 ==> spec_get_ipv4(info) is Some && spec_get_ipv6(info) is None,
        info.len() == 8 ==> spec_get_ipv4(info) is None && spec_get_ipv6(info) is Some,
        info.len() == 12 ==> spec_get_ipv4(info) is Some && spec_get_ipv6(info) is Some,
        info.len() != 4 && info.len() != 8 && info.len() != 12 ==> spec_get_ipv4(info) is None
            && spec_get_ipv6(info) is None,
{
}

// ---------------------------------------------------------------------------
// QoS flow descriptions (carried but not parsed: out of the decoder's scope).
// ---------------------------------------------------------------------------

/// One parameter of a QoS flow description.
#[derive(Debug, Clone, Copy, PartialEq, Eq, Structural)]
pub struct Parameter {
    pub parameter_id: u8,
    pub length_param_content: u8,
}

/// One QoS flow description.
#[derive(Debug, Clone, PartialEq)]
pub struct QOSFlowDescriptionsContents {
    pub qfi: u8,
    pub operationcode: u8,
    pub numberofparameters: u8,
    pub e: u8,
    pub parameterslist: Vec<Parameter>,
}

/// The QoS flow descriptions IE, left unparsed by this decoder.
#[derive(Debug, Clone, PartialEq)]
pub struct QOSFlowDescriptions {
    pub qosflowdescriptionsnumber: u16,
    pub qosflowdescriptionscontents: Vec<QOSFlowDescriptionsContents>,
}

/// Spec-level QoS flow description.
pub struct SpecQfdContents {
    pub qfi: u8,
    pub operationcode: u8,
    pub numberofparameters: u8,
    pub e: u8,
    pub params: Seq<Parameter>,
}

/// Spec-level QoS flow descriptions IE.
pub struct SpecQfd {
    pub number: u16,
    pub contents: Seq<SpecQfdContents>,
}

impl View for QOSFlowDescriptionsContents {
    type V = SpecQfdContents;

    open spec fn view(&self) -> SpecQfdContents {
        SpecQfdContents {
            qfi: self.qfi,
            operationcode: self.operationcode,
            numberofparameters: self.numberofparameters,
            e: self.e,
            params: self.parameterslist@,
        }
    }
}

/// The spec-level image of a flow-description list.
pub open spec fn view_qfd_contents(l: Seq<QOSFlowDescriptionsContents>) -> Seq<SpecQfdContents> {
    l.map_values(|c: QOSFlowDescriptionsContents| c@)
}

impl View for QOSFlowDescriptions {
    type V = SpecQfd;

    open spec fn view(&self) -> SpecQfd {
        SpecQfd {
            number: self.qosflowdescriptionsnumber,
            contents: view_qfd_contents(self.qosflowdescriptionscontents@),
        }
    }
}

impl QOSFlowDescriptions {
    /// The value before (and after) decoding: empty.
    pub fn default() -> (r: QOSFlowDescriptions)
        ensures
            r@ == (SpecQfd { number: 0, contents: Seq::<SpecQfdContents>::empty() }),
    {
        let r = QOSFlowDescriptions {
            qosflowdescriptionsnumber: 0,
            qosflowdescriptionscontents: Vec::new(),
        };
        proof {
            assert(view_qfd_contents(r.qosflowdescriptionscontents@) =~= Seq::<
                SpecQfdContents,
            >::empty());
        }
        r
    }
}

// ---------------------------------------------------------------------------
// The message and its top-level decoder.
// ---------------------------------------------------------------------------

/// The decoded "PDU Session Establishment Accept" message.
#[derive(Debug, Clone, PartialEq)]
pub struct PduSessionEstablishmentAcceptMsg {
    pub extendedprotocoldiscriminator: ExtendedProtocolDiscriminator,
    pub pdusessionidentity: PDUSessionIdentity,
    pub proceduretransactionidentity: ProcedureTransactionIdentity,
    pub messagetype: SessionMessageType,
    pub pdusessiontype: PDUSessionType,
    pub sscmode: SSCMode,
    pub qosrules: QOSRules,
    pub pduaddress: PDUAddress,
    pub qosflowdescriptions: QOSFlowDescriptions,
    pub extendedprotocolconfigurationoptions: ExtProtoCfgOpts,
    pub dnn: DNN,
}

pub type DNN = OctetString;

/// Spec-level decoded message.
pub struct SpecMsg {
    pub epd: u8,
    pub psi: u8,
    pub pti: u8,
    pub message_type: SessionMessageType,
    pub pdu_session_type: PduAddressType,
    pub pst_spare: u8,
    pub ssc_mode: u8,
    pub ssc_spare: u8,
    pub qos: SpecQosRules,
    pub address: SpecPduAddress,
    pub qfd: SpecQfd,
    pub epco: SpecEpco,
    pub dnn: Seq<u8>,
}

impl View for PduSessionEstablishmentAcceptMsg {
    type V = SpecMsg;

    open spec fn view(&self) -> SpecMsg {
        SpecMsg {
            epd: self.extendedprotocoldiscriminator,
            psi: self.pdusessionidentity,
            pti: self.proceduretransactionidentity,
            message_type: self.messagetype,
            pdu_session_type: self.pdusessiontype.pdu_session_type_value,
            pst_spare: self.pdusessiontype.spare,
            ssc_mode: self.sscmode.ssc_mode_value,
            ssc_spare: self.sscmode.spare,
            qos: self.qosrules@,
            address: self.pduaddress@,
            qfd: self.qosflowdescriptions@,
            epco: self.extendedprotocolconfigurationoptions@,
            dnn: self.dnn@,
        }
    }
}

/// The optional IEs that the decoder retains from the trailing IE list.
pub struct SpecOptIes {
    pub dnn: Option<Seq<u8>>,
    pub epco: Option<SpecEpco>,
    pub address: Option<SpecPduAddress>,
}

/// No retained IE seen.
pub open spec fn spec_empty_opts() -> SpecOptIes {
    SpecOptIes { dnn: None, epco: None, address: None }
}

/// Combine the retained IEs found later in the list with those found
/// earlier: where a tag occurs twice, the later occurrence wins.
pub open spec fn merge_opts(later: SpecOptIes, earlier: SpecOptIes) -> SpecOptIes {
    SpecOptIes {
        dnn: if later.dnn is Some {
            later.dnn
        } else {
            earlier.dnn
        },
        epco: if later.epco is Some {
            later.epco
        } else {
            earlier.epco
        },
        address: if later.address is Some {
            later.address
        } else {
            earlier.address
        },
    }
}

/// The tags whose IE carries a 2-octet length (TLV-E).
pub open spec fn spec_is_tlv_e_tag(t: u8) -> bool {
    t == 0x75 || t == 0x78 || t == 0x79 || t == 0x77 || t == 0x7b
}

/// The tags whose IE is a fixed two octets with no length octet (TV).
pub open spec fn spec_is_tv2_tag(t: u8) -> bool {
    t == 0x59 || t == 0x56
}

/// The tags whose IE is one octet, value embedded in the tag (TV).
pub open spec fn spec_is_tv1_tag(t: u8) -> bool {
    t == 0x80 || t == 0xc0
}

/// Walk the optional IEs from `i` to `end`. Each tag selects its encoding
/// shape; the DNN (0x25), PDU address (0x29) and ePCO (0x7b) IEs are
/// decoded and retained, every other tag is skipped by its declared span. A
/// skipped span past the end of input ends the walk; a retained IE whose
/// declared span passes the end of input is out of bounds.
pub open spec fn spec_opt_ies(s: Seq<u8>, i: int, end: int) -> Result<SpecOptIes, DecodeError>
    decreases end - i,
{
    if i >= end {
        Ok(spec_empty_opts())
    } else {
        let t = s[i];
        if spec_is_tlv_e_tag(t) {
            if i + 3 > end {
                Err(DecodeError::OutOfBounds)
            } else {
                let j = i + 3 + be16(s[i + 1], s[i + 2]);
                if t == 0x7b {
                    if j > end {
                        Err(DecodeError::OutOfBounds)
                    } else {
                        match spec_parse_epco(s.subrange(i, j)) {
                            Err(e) => Err(e),
                            Ok(p) => match spec_opt_ies(s, j, end) {
                                Err(e) => Err(e),
                                Ok(rest) => Ok(
                                    merge_opts(
                                        rest,
                                        SpecOptIes { dnn: None, epco: Some(p), address: None },
                                    ),
                                ),
                            },
                        }
                    }
                } else {
                    if j > end {
                        Ok(spec_empty_opts())
                    } else {
                        spec_opt_ies(s, j, end)
                    }
                }
            }
        } else if spec_is_tv2_tag(t) {
            if i + 2 > end {
                Ok(spec_empty_opts())
            } else {
                spec_opt_ies(s, i + 2, end)
            }
        } else if spec_is_tv1_tag(t) {
            spec_opt_ies(s, i + 1, end)
        } else {
            if i + 2 > end {
                Err(DecodeError::OutOfBounds)
            } else {
                let j = i + 2 + s[i + 1];
                if t == 0x25 {
                    if j > end {
                        Err(DecodeError::OutOfBounds)
                    } else {
                        match spec_opt_ies(s, j, end) {
                            Err(e) => Err(e),
                            Ok(rest) => Ok(
                                merge_opts(
                                    rest,
                                    SpecOptIes {
                                        dnn: Some(s.subrange(i + 2, j)),
                                        epco: None,
                                        address: None,
                                    },
                                ),
                            ),
                        }
                    }
                } else if t == 0x29 {
                    if j > end {
                        Err(DecodeError::OutOfBounds)
                    } else if s[i + 1] < 1 {
                        Err(DecodeError::OutOfBounds)
                    } else {
                        match spec_opt_ies(s, j, end) {
                            Err(e) => Err(e),
                            Ok(rest) => Ok(
                                merge_opts(
                                    rest,
                                    SpecOptIes {
                                        dnn: None,
                                        epco: None,
                                        address: Some(
                                            SpecPduAddress {
                                                ty: spec_pdu_address_type(s[i + 2] & 0x07),
                                                info: s.subrange(i + 3, j),
                                            },
                                        ),
                                    },
                                ),
                            ),
                        }
                    }
                } else {
                    if j > end {
                        Ok(spec_empty_opts())
                    } else {
                        spec_opt_ies(s, j, end)
                    }
                }
            }
        }
    }
}

/// The spec-level image of the three retained-IE slots.
pub open spec fn opts_of(
    d: Option<OctetString>,
    a: Option<PDUAddress>,
    p: Option<ExtProtoCfgOpts>,
) -> SpecOptIes {
    SpecOptIes {
        dnn: match d {
            Some(o) => Some(o@),
            None => None,
        },
        epco: match p {
            Some(o) => Some(o@),
            None => None,
        },
        address: match a {
            Some(o) => Some(o@),
            None => None,
        },
    }
}

/// The message assembled from the header octets, the QoS rules and the
/// retained optional IEs; an absent optional IE keeps its default value.
pub open spec fn spec_assemble(s: Seq<u8>, q: SpecQosRules, o: SpecOptIes) -> SpecMsg {
    SpecMsg {
        epd: s[0],
        psi: s[1],
        pti: s[2],
        message_type: spec_message_type(s[3]),
        pdu_session_type: spec_pdu_address_type(s[4] & 0x07),
        pst_spare: 0,
        ssc_mode: (s[4] >> 4) & 0x07,
        ssc_spare: 0,
        qos: q,
        address: match o.address {
            Some(a) => a,
            None => SpecPduAddress { ty: PduAddressType::IPV4, info: Seq::empty() },
        },
        qfd: SpecQfd { number: 0, contents: Seq::empty() },
        epco: match o.epco {
            Some(p) => p,
            None => SpecEpco { length: 0, containers: Seq::empty() },
        },
        dnn: match o.dnn {
            Some(dn) => dn,
            None => Seq::empty(),
        },
    }
}

/// Decode one complete message: the five fixed header octets, the QoS-Rules
/// IE (its own 2-octet length governs its span), the Session-AMBR IE
/// (skipped by its 1-octet length), then the optional IE list to the end of
/// input.
pub open spec fn spec_decode_msg(s: Seq<u8>) -> Result<SpecMsg, DecodeError> {
    if s.len() < 5 {
        Err(DecodeError::OutOfBounds)
    } else {
        match spec_decode_qos_rules(s.subrange(5, s.len() as int)) {
            Err(e) => Err(e),
            Ok(q) => {
                let i = 7 + q.total_length;
                if i + 1 > s.len() {
                    Err(DecodeError::OutOfBounds)
                } else {
                    let j = i + 1 + s[i];
                    if j > s.len() {
                        Err(DecodeError::OutOfBounds)
                    } else {
                        match spec_opt_ies(s, j, s.len() as int) {
                            Err(e) => Err(e),
                            Ok(o) => Ok(spec_assemble(s, q, o)),
                        }
                    }
                }
            },
        }
    }
}

/// Walk the optional IE list from `start` to the end of `d`, returning the
/// retained DNN, PDU address and ePCO slots.
fn decode_optional_ies(d: &[u8], start: usize) -> (r: Result<
    (Option<OctetString>, Option<PDUAddress>, Option<ExtProtoCfgOpts>),
    DecodeError,
>)
    requires
        start <= d@.len(),
    ensures
        match r {
            Ok((dnn, addr, epco)) => spec_opt_ies(d@, start as int, d@.len() as int) == Ok::<
                SpecOptIes,
                DecodeError,
            >(opts_of(dnn, addr, epco)),
            Err(e) => spec_opt_ies(d@, start as int, d@.len() as int) == Err::<
                SpecOptIes,
                DecodeError,
            >(e),
        },
{
    let end = d.len();
    let mut i = start;
    let mut dnn_opt: Option<OctetString> = None;
    let mut addr_opt: Option<PDUAddress> = None;
    let mut epco_opt: Option<ExtProtoCfgOpts> = None;
    while i < end
        invariant
            end == d@.len(),
            i <= end,
            start <= end,
            spec_opt_ies(d@, start as int, end as int) == match spec_opt_ies(
                d@,
                i as int,
                end as int,
            ) {
                Ok(rest) => Ok::<SpecOptIes, DecodeError>(
                    merge_opts(rest, opts_of(dnn_opt, addr_opt, epco_opt)),
                ),
                Err(e) => Err::<SpecOptIes, DecodeError>(e),
            },
        decreases end - i,
    {
        let ghost cur = opts_of(dnn_opt, addr_opt, epco_opt);
        let t = d[i];
        if t == 0x75 || t == 0x78 || t == 0x79 || t == 0x77 || t == 0x7b {
            if end - i < 3 {
                return Err(DecodeError::OutOfBounds);
            }
            let l = (((d[i + 1] as u16) << 8) | (d[i + 2] as u16)) as usize;
            if t == 0x7b {
                if end - (i + 3) < l {
                    return Err(DecodeError::OutOfBounds);
                }
                let j = i + 3 + l;
                let sub = vstd::slice::slice_subrange(d, i, j);
                let p = match parse_extended_pco(sub) {
                    Ok(p) => p,
                    Err(e) => {
                        return Err(e);
                    },
                };
                proof {
                    let h = SpecOptIes { dnn: None, epco: Some(p@), address: None };
                    assert(spec_opt_ies(d@, i as int, end as int) == match spec_opt_ies(
                        d@,
                        j as int,
                        end as int,
                    ) {
                        Ok(rest) => Ok::<SpecOptIes, DecodeError>(merge_opts(rest, h)),
                        Err(e) => Err::<SpecOptIes, DecodeError>(e),
                    });
                    assert(match spec_opt_ies(d@, j as int, end as int) {
                        Ok(rest) => merge_opts(merge_opts(rest, h), cur) == merge_opts(
                            rest,
                            merge_opts(h, cur),
                        ),
                        Err(_) => true,
                    });
                }
                epco_opt = Some(p);
                i = j;
                proof {
                    assert(opts_of(dnn_opt, addr_opt, epco_opt) == merge_opts(
                        SpecOptIes { dnn: None, epco: Some(epco_opt->Some_0@), address: None },
                        cur,
                    ));
                }
            } else {
                if end - (i + 3) < l {
                    proof {
                        assert(spec_opt_ies(d@, i as int, end as int) == Ok::<
                            SpecOptIes,
                            DecodeError,
                        >(spec_empty_opts()));
                    }
                    i = end;
                } else {
                    i = i + 3 + l;
                }
            }
        } else if t == 0x59 || t == 0x56 {
            if end - i < 2 {
                proof {
                    assert(spec_opt_ies(d@, i as int, end as int) == Ok::<
                        SpecOptIes,
                        DecodeError,
                    >(spec_empty_opts()));
                }
                i = end;
            } else {
                i = i + 2;
            }
        } else if t == 0x80 || t == 0xc0 {
            i = i + 1;
        } else {
            if end - i < 2 {
                return Err(DecodeError::OutOfBounds);
            }
            let l = d[i + 1] as usize;
            if t == 0x25 {
                if end - (i + 2) < l {
                    return Err(DecodeError::OutOfBounds);
                }
                let j = i + 2 + l;
                let v = copy_range(d, i + 2, j);
                proof {
                    let h = SpecOptIes {
                        dnn: Some(d@.subrange(i + 2, j as int)),
                        epco: None,
                        address: None,
                    };
                    assert(spec_opt_ies(d@, i as int, end as int) == match spec_opt_ies(
                        d@,
                        j as int,
                        end as int,
                    ) {
                        Ok(rest) => Ok::<SpecOptIes, DecodeError>(merge_opts(rest, h)),
                        Err(e) => Err::<SpecOptIes, DecodeError>(e),
                    });
                    assert(match spec_opt_ies(d@, j as int, end as int) {
                        Ok(rest) => merge_opts(merge_opts(rest, h), cur) == merge_opts(
                            rest,
                            merge_opts(h, cur),
                        ),
                        Err(_) => true,
                    });
                }
                dnn_opt = Some(OctetString { value: v });
                i = j;
            } else if t == 0x29 {
                if end - (i + 2) < l {
                    return Err(DecodeError::OutOfBounds);
                }
                if l < 1 {
                    return Err(DecodeError::OutOfBounds);
                }
                let j = i + 2 + l;
                let ty = PduAddressType::from_u8(d[i + 2] & 0x07);
                let info = copy_range(d, i + 3, j);
                proof {
                    let h = SpecOptIes {
                        dnn: None,
                        epco: None,
                        address: Some(
                            SpecPduAddress {
                                ty: spec_pdu_address_type(d@[i as int + 2] & 0x07),
                                info: d@.subrange(i + 3, j as int),
                            },
                        ),
                    };
                    assert(spec_opt_ies(d@, i as int, end as int) == match spec_opt_ies(
                        d@,
                        j as int,
                        end as int,
                    ) {
                        Ok(rest) => Ok::<SpecOptIes, DecodeError>(merge_opts(rest, h)),
                        Err(e) => Err::<SpecOptIes, DecodeError>(e),
                    });
                    assert(match spec_opt_ies(d@, j as int, end as int) {
                        Ok(rest) => merge_opts(merge_opts(rest, h), cur) == merge_opts(
                            rest,
                            merge_opts(h, cur),
                        ),
                        Err(_) => true,
                    });
                }
                addr_opt = Some(
                    PDUAddress {
                        pdu_session_type_value: ty,
                        pdu_address_information: OctetString { value: info },
                    },
                );
                i = j;
            } else {
                if end - (i + 2) < l {
                    proof {
                        assert(spec_opt_ies(d@, i as int, end as int) == Ok::<
                            SpecOptIes,
                            DecodeError,
                        >(spec_empty_opts()));
                    }
                    i = end;
                } else {
                    i = i + 2 + l;
                }
            }
        }
    }
    proof {
        assert(spec_opt_ies(d@, i as int, end as int) == Ok::<SpecOptIes, DecodeError>(
            spec_empty_opts(),
        ));
        assert(merge_opts(spec_empty_opts(), opts_of(dnn_opt, addr_opt, epco_opt)) == opts_of(
            dnn_opt,
            addr_opt,
            epco_opt,
        ));
    }
    Ok((dnn_opt, addr_opt, epco_opt))
}

impl PduSessionEstablishmentAcceptMsg {
    /// A message with every field at its default value.
    pub fn new() -> (r: Self)
        ensures
            r@ == spec_assemble_default(),
    {
        let r = PduSessionEstablishmentAcceptMsg {
            extendedprotocoldiscriminator: 0,
            pdusessionidentity: 0,
            proceduretransactionidentity: 0,
            messagetype: SessionMessageType::default(),
            pdusessiontype: PDUSessionType::default(),
            sscmode: SSCMode { ssc_mode_value: 0, spare: 0 },
            qosrules: QOSRules { lengthofqosrulesie: 0, qosrulesie: Vec::new() },
            pduaddress: PDUAddress::default(),
            qosflowdescriptions: QOSFlowDescriptions::default(),
            extendedprotocolconfigurationoptions: ExtProtoCfgOpts::default(),
            dnn: OctetString::default(),
        };
        proof {
            assert(crate::qos_rules::view_rules(r.qosrules.qosrulesie@) =~= Seq::<
                crate::qos_rules::SpecRule,
            >::empty());
        }
        r
    }

    /// Decode one complete "PDU Session Establishment Accept" message from
    /// its octets. The result is exactly `spec_decode_msg` of the input:
    /// every field of the structured message is pinned to the octets, and
    /// every malformed or truncated input yields its typed error.
    pub fn tlv_decode_pdu_session_establishment_accept(data: Vec<u8>) -> (r: Result<
        PduSessionEstablishmentAcceptMsg,
        DecodeError,
    >)
        ensures
            match r {
                Ok(m) => spec_decode_msg(data@) == Ok::<SpecMsg, DecodeError>(m@),
                Err(e) => spec_decode_msg(data@) == Err::<SpecMsg, DecodeError>(e),
            },
    {
        let d: &[u8] = data.as_slice();
        let end = d.len();
        if end < 5 {
            return Err(DecodeError::OutOfBounds);
        }
        let qos_region = vstd::slice::slice_subrange(d, 5, end);
        let qosrules = match QOSRules::decode(qos_region) {
            Ok(q) => q,
            Err(e) => {
                return Err(e);
            },
        };
        proof {
            assert(2 + qosrules@.total_length <= qos_region@.len());
        }
        let total = qosrules.lengthofqosrulesie as usize;
        let mut i: usize = 7 + total;
        if end - i < 1 {
            return Err(DecodeError::OutOfBounds);
        }
        let l2 = d[i] as usize;
        i = i + 1;
        if end - i < l2 {
            return Err(DecodeError::OutOfBounds);
        }
        i = i + l2;
        let (dnn_opt, addr_opt, epco_opt) = match decode_optional_ies(d, i) {
            Ok(x) => x,
            Err(e) => {
                return Err(e);
            },
        };
        let msg = PduSessionEstablishmentAcceptMsg {
            extendedprotocoldiscriminator: d[0],
            pdusessionidentity: d[1],
            proceduretransactionidentity: d[2],
            messagetype: SessionMessageType::from_u8(d[3]),
            pdusessiontype: PDUSessionType {
                pdu_session_type_value: PduAddressType::from_u8(d[4] & 0x07),
                spare: 0,
            },
            sscmode: SSCMode { ssc_mode_value: (d[4] >> 4) & 0x07, spare: 0 },
            qosrules,
            pduaddress: match addr_opt {
                Some(a) => a,
                None => PDUAddress::default(),
            },
            qosflowdescriptions: QOSFlowDescriptions::default(),
            extendedprotocolconfigurationoptions: match epco_opt {
                Some(p) => p,
                None => ExtProtoCfgOpts::default(),
            },
            dnn: match dnn_opt {
                Some(o) => o,
                None => OctetString::default(),
            },
        };
        Ok(msg)
    }

    /// The DNN in display form: its length-prefixed labels joined with
    /// dots. A message with no DNN displays as the empty string.
    pub fn get_dnn_name(&self) -> (r: Result<String, DecodeError>)
        ensures
            match r {
                Ok(t) => match spec_dnn_display(self@.dnn, 0) {
                    Ok(d) => vstd::utf8::valid_utf8(d) && t@ == vstd::utf8::decode_utf8(d),
                    Err(_) => false,
                },
                Err(e) => match spec_dnn_display(self@.dnn, 0) {
                    Ok(d) => !vstd::utf8::valid_utf8(d) && e == DecodeError::InvalidUtf8,
                    Err(e2) => e == e2,
                },
            },
    {
        if self.dnn.value.len() > 0 {
            self.dnn.dnn_to_string()
        } else {
            proof {
                assert(spec_dnn_display(self@.dnn, 0) == Ok::<Seq<u8>, DecodeError>(
                    Seq::empty(),
                ));
                assert(vstd::utf8::valid_utf8(Seq::<u8>::empty()));
                assert(vstd::utf8::decode_utf8(Seq::<u8>::empty()) =~= Seq::<char>::empty());
            }
            Ok(String::new())
        }
    }

    /// The IPv4 address assigned by the PDU address IE, when its payload
    /// width carries one (four or twelve octets).
    pub fn get_ipv4(&self) -> (r: Option<Ipv4Address>)
        ensures
            match r {
                Some(a) => spec_get_ipv4(self@.address.info) == Some(a@),
                None => spec_get_ipv4(self@.address.info) is None,
            },
    {
        let info = &self.pduaddress.pdu_address_information.value;
        if info.len() == 4 {
            let octets = copy_range(info.as_slice(), 0, 4);
            proof {
                assert(octets@ =~= self@.address.info);
            }
            Some(Ipv4Address { octets })
        } else if info.len() == 12 {
            Some(Ipv4Address { octets: copy_range(info.as_slice(), 8, 12) })
        } else {
            None
        }
    }

    /// The IPv6 interface identifier assigned by the PDU address IE, padded
    /// to a sixteen-octet address, when its payload width carries one (eight
    /// or twelve octets).
    pub fn get_ipv6(&self) -> (r: Option<Ipv6Address>)
        ensures
            match r {
                Some(a) => spec_get_ipv6(self@.address.info) == Some(a@),
                None => spec_get_ipv6(self@.address.info) is None,
            },
    {
        let info = &self.pduaddress.pdu_address_information.value;
        if info.len() == 8 || info.len() == 12 {
            let mut octets: Vec<u8> = vec![0u8; 8];
            octets.extend_from_slice(vstd::slice::slice_subrange(info.as_slice(), 0, 8));
            proof {
                assert(octets@ =~= Seq::new(8, |k: int| 0u8) + self@.address.info.subrange(0, 8));
            }
            Some(Ipv6Address { octets })
        } else {
            None
        }
    }

    /// The P-CSCF IPv6 address from the ePCO, or the loopback address when
    /// the ePCO carries none.
    pub fn get_pcscf_v6_address(&self) -> (r: Ipv6Address)
        ensures
            match spec_v6_lookup(self@.epco.containers, 0x0001) {
                Some(a) => r@ == a,
                None => r@ == spec_v6_loopback(),
            },
    {
        match self.extendedprotocolconfigurationoptions.get_pcscf_v6_addr() {
            Some(a) => a,
            None => {
                let mut octets: Vec<u8> = vec![0u8; 15];
                octets.push(1);
                proof {
                    assert(octets@ =~= spec_v6_loopback());
                }
                Ipv6Address { octets }
            },
        }
    }

    /// The DNS-server IPv6 address from the ePCO, when present.
    pub fn get_dns_v6_address(&self) -> (r: Option<Ipv6Address>)
        ensures
            match r {
                Some(a) => spec_v6_lookup(self@.epco.containers, 0x0003) == Some(a@),
                None => spec_v6_lookup(self@.epco.containers, 0x0003) is None,
            },
    {
        self.extendedprotocolconfigurationoptions.get_dns_v6_addr()
    }
}

/// The IPv6 loopback address.
pub open spec fn spec_v6_loopback() -> Seq<u8> {
    Seq::new(16, |k: int| if k == 15 {
        1u8
    } else {
        0u8
    })
}

/// A default message, as `new` builds it.
pub open spec fn spec_assemble_default() -> SpecMsg {
    SpecMsg {
        epd: 0,
        psi: 0,
        pti: 0,
        message_type: SessionMessageType::EstablishmentAccept,
        pdu_session_type: PduAddressType::IPV4,
        pst_spare: 0,
        ssc_mode: 0,
        ssc_spare: 0,
        qos: SpecQosRules { total_length: 0, rules: Seq::empty() },
        address: SpecPduAddress { ty: PduAddressType::IPV4, info: Seq::empty() },
        qfd: SpecQfd { number: 0, contents: Seq::empty() },
        epco: SpecEpco { length: 0, containers: Seq::empty() },
        dnn: Seq::empty(),
    }
}

// ---------------------------------------------------------------------------
// Network-interface management TLV scan.
// ---------------------------------------------------------------------------

pub const NR_NETWORK_IF_MGMT_CREATE: u8 = 0x00;

pub const NR_NETWORK_IF_MGMT_UPDATE: u8 = 0x01;

pub const NR_NETWORK_IF_MGMT_DELETE: u8 = 0x11;

pub const NR_NETWORK_IF_MGMT_DESTORY: u8 = 0xff;

/// Scan plain TLV records from `i` for the first create, update or destroy
/// record: create and update carry their value, destroy carries none. Any
/// other tag is skipped by its declared length; a record that runs past the
/// end of input ends the scan with nothing found.
pub open spec fn spec_find_mgmt(s: Seq<u8>, i: int) -> Option<(u8, Seq<u8>)>
    decreases s.len() - i,
{
    if i >= s.len() || i + 2 > s.len() {
        None
    } else {
        let t = s[i];
        let l = s[i + 1];
        if t == NR_NETWORK_IF_MGMT_CREATE || t == NR_NETWORK_IF_MGMT_UPDATE {
            if i + 2 + l > s.len() {
                None
            } else {
                Some((t, s.subrange(i + 2, i + 2 + l)))
            }
        } else if t == NR_NETWORK_IF_MGMT_DESTORY {
            Some((t, Seq::empty()))
        } else {
            if i + 2 + l >= s.len() {
                None
            } else {
                spec_find_mgmt(s, i + 2 + l)
            }
        }
    }
}

/// Scan the TLV records of a network-interface management message for the
/// first create, update or destroy record, returning its tag and value.
/// Truncated records end the scan with `None`.
pub fn tlv_decode_nr_network_if_mgm(data: &[u8]) -> (r: Option<(u8, Vec<u8>)>)
    ensures
        match r {
            Some((t, v)) => spec_find_mgmt(data@, 0) == Some((t, v@)),
            None => spec_find_mgmt(data@, 0) is None,
        },
{
    let mut i: usize = 0;
    while i < data.len()
        invariant
            i <= data@.len(),
            spec_find_mgmt(data@, 0) == spec_find_mgmt(data@, i as int),
        decreases data@.len() - i,
    {
        if data.len() - i < 2 {
            return None;
        }
        let t = data[i];
        let l = data[i + 1] as usize;
        if t == NR_NETWORK_IF_MGMT_CREATE || t == NR_NETWORK_IF_MGMT_UPDATE {
            if data.len() - (i + 2) < l {
                return None;
            }
            return Some((t, copy_range(data, i + 2, i + 2 + l)));
        }
        if t == NR_NETWORK_IF_MGMT_DESTORY {
            return Some((t, Vec::new()));
        }
        if data.len() - (i + 2) <= l {
            return None;
        }
        i = i + 2 + l;
    }
    None
}

// ---------------------------------------------------------------------------
// Laws of the decoder.
// ---------------------------------------------------------------------------

/// Round-trip determinism: decoding is a pure function of the octets, so two
/// decodes of the same byte sequence yield structurally equal messages.
pub proof fn lemma_decode_deterministic(s: Seq<u8>, m1: SpecMsg, m2: SpecMsg)
    requires
        spec_decode_msg(s) == Ok::<SpecMsg, DecodeError>(m1),
        spec_decode_msg(s) == Ok::<SpecMsg, DecodeError>(m2),
    ensures
        m1 == m2,
{
}

/// The offset just past the mandatory part of a message: the fixed header,
/// the QoS-Rules IE and the Session-AMBR IE.
pub open spec fn spec_mandatory_end(s: Seq<u8>) -> int {
    8 + be16(s[5], s[6]) + s[7 + be16(s[5], s[6])]
}

/// Bounds safety: no input shorter than the smallest complete mandatory part
/// (eight octets) decodes.
pub proof fn lemma_short_input_rejected(s: Seq<u8>)
    requires
        s.len() < 8,
    ensures
        spec_decode_msg(s) is Err,
{
    if s.len() >= 5 {
        let sub = s.subrange(5, s.len() as int);
        if sub.len() >= 2 {
            let total = be16(sub[0], sub[1]);
            if 2 + total <= sub.len() {
                assert(total == 0) by {
                    assert(sub.len() <= 2);
                };
                assert(crate::qos_rules::spec_rules(sub, 2, 2) == Ok::<
                    Seq<crate::qos_rules::SpecRule>,
                    DecodeError,
                >(Seq::empty()));
            }
        }
    }
}

/// Bounds safety under truncation: cutting a decodable message anywhere
/// inside its mandatory part yields an error. (Cutting inside the optional
/// IE list may succeed: end of input at an IE boundary is a legal terminal
/// state there.)
pub proof fn lemma_truncated_mandatory_rejected(s: Seq<u8>, n: int)
    requires
        spec_decode_msg(s) is Ok,
        0 <= n < spec_mandatory_end(s),
        n <= s.len(),
    ensures
        spec_decode_msg(s.take(n)) is Err,
{
    let t = s.take(n);
    if n < 5 {
    } else {
        let ssub = s.subrange(5, s.len() as int);
        let tsub = t.subrange(5, n);
        assert(spec_decode_qos_rules(ssub) is Ok);
        let total = be16(s[5], s[6]);
        assert(2 + total <= ssub.len());
        if n < 7 {
            assert(tsub.len() < 2);
        } else {
            assert(tsub[0] == s[5] && tsub[1] == s[6]);
            if 2 + total > tsub.len() {
            } else {
                assert(n >= 7 + total);
                match crate::qos_rules::spec_rules(tsub, 2, 2 + total) {
                    Err(_) => {},
                    Ok(_) => {
                        let i = 7 + total;
                        if i + 1 > n {
                        } else {
                            assert(t[i] == s[i]);
                            assert(n < 8 + total + s[i]);
                            assert(i + 1 + t[i] > n);
                        }
                    },
                }
            }
        }
    }
}

} // verus!