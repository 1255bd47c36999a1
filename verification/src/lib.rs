//! Decoder for the 5G NAS "PDU Session Establishment Accept" message.
//!
//! The library turns the wire-format octet sequence of the message into a
//! structured representation: the fixed header, the QoS-Rules information
//! element with its packet-filter lists, the extended protocol configuration
//! options (ePCO) containers, the PDU address and the DNN. Every read is
//! bounds-checked and every decoder is specified against a mathematical
//! model of the wire format, so malformed or truncated input yields a typed
//! error, never a panic.

pub mod bytes;
pub mod msg;
pub mod pdu_accept;
pub mod pdu_helper;
pub mod qos_rules;

pub use bytes::DecodeError;
