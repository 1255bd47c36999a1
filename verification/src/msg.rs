//! Inter-task message tags and the decoder's service data unit.
//!
//! The message bus itself (channels, threads, routing) is outside the
//! library; these are the plain values that cross its boundary.

use vstd::prelude::*;

verus! {

/// Tags naming the tasks a message can be routed to.
#[derive(Debug, Clone, Copy, PartialEq, Eq, Structural, Hash)]
pub enum IttiTrxTag {
    PduSessionMgmt,
    NasDecoer,
    Listener,
    GtpUdp,
}

/// The raw NAS octets handed to the decoder task.
#[derive(Debug, Clone, PartialEq)]
pub struct NasDecoerSdu {
    pub sdu: Vec<u8>,
}

impl View for NasDecoerSdu {
    type V = Seq<u8>;

    open spec fn view(&self) -> Seq<u8> {
        self.sdu@
    }
}

/// The header octets that mark a trace packet as a Wireshark "exported PDU"
/// carrying a NAS-5GS message: a dissector-name tag ("nas-5gs") followed by
/// an end-of-options marker.
pub open spec fn spec_exported_pdu_prefix() -> Seq<u8> {
    seq![0x00u8, 0x0c, 0x00, 0x07, 0x6e, 0x61, 0x73, 0x2d, 0x35, 0x67, 0x73, 0x00, 0x00, 0x00, 0x00]
}

/// Frame a NAS-5GS message for a packet-trace file: the exported-PDU header
/// octets followed by the message octets, unchanged.
pub fn exported_pdu_frame(nas: &[u8]) -> (r: Vec<u8>)
    ensures
        r@ == spec_exported_pdu_prefix() + nas@,
{
    let mut r: Vec<u8> = Vec::new();
    r.push(0x00);
    r.push(0x0c);
    r.push(0x00);
    r.push(0x07);
    r.push(0x6e);
    r.push(0x61);
    r.push(0x73);
    r.push(0x2d);
    r.push(0x35);
    r.push(0x67);
    r.push(0x73);
    r.push(0x00);
    r.push(0x00);
    r.push(0x00);
    r.push(0x00);
    r.extend_from_slice(nas);
    proof {
        assert(r@ =~= spec_exported_pdu_prefix() + nas@);
    }
    r
}

} // verus!
