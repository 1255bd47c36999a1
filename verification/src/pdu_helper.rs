//! Session-management message header types.

use vstd::prelude::*;

verus! {

pub type ExtendedProtocolDiscriminator = u8;

pub type PDUSessionIdentity = u8;

pub type ProcedureTransactionIdentity = u8;

/// The session-management message subtypes; an unrecognized code maps to
/// `Unknown`.
#[derive(Debug, Clone, Copy, PartialEq, Eq, Structural)]
pub enum SessionMessageType {
    Unknown,
    EstablishmentRequest,
    EstablishmentAccept,
    EstablishmentReject,
    AuthenticationCommand,
    AuthenticationComplete,
    AuthenticationResult,
    ModificationRequest,
    ModificationReject,
    ModificationCommand,
    ModificationComplete,
    ModificationCommandReject,
    ReleaseRequest,
    ReleaseReject,
    ReleaseCommand,
    ReleaseComplete,
}

/// The message subtype named by a message-type octet.
pub open spec fn spec_message_type(val: u8) -> SessionMessageType {
    if val == 0xc1 {
        SessionMessageType::EstablishmentRequest
    } else if val == 0xc2 {
        SessionMessageType::EstablishmentAccept
    } else if val == 0xc3 {
        SessionMessageType::EstablishmentReject
    } else if val == 0xc5 {
        SessionMessageType::AuthenticationCommand
    } else if val == 0xc6 {
        SessionMessageType::AuthenticationComplete
    } else if val == 0xc7 {
        SessionMessageType::AuthenticationResult
    } else if val == 0xc9 {
        SessionMessageType::ModificationRequest
    } else if val == 0xca {
        SessionMessageType::ModificationReject
    } else if val == 0xcb {
        SessionMessageType::ModificationCommand
    } else if val == 0xcc {
        SessionMessageType::ModificationComplete
    } else if val == 0xcd {
        SessionMessageType::ModificationCommandReject
    } else if val == 0xd1 {
        SessionMessageType::ReleaseRequest
    } else if val == 0xd2 {
        SessionMessageType::ReleaseReject
    } else if val == 0xd3 {
        SessionMessageType::ReleaseCommand
    } else if val == 0xd4 {
        SessionMessageType::ReleaseComplete
    } else {
        SessionMessageType::Unknown
    }
}

impl SessionMessageType {
    /// Map a message-type octet to its named subtype; an unrecognized code
    /// maps to `Unknown`.
    pub fn from_u8(val: u8) -> (r: SessionMessageType)
        ensures
            r == spec_message_type(val),
    {
        match val {
            0xc1 => SessionMessageType::EstablishmentRequest,
            0xc2 => SessionMessageType::EstablishmentAccept,
            0xc3 => SessionMessageType::EstablishmentReject,
            0xc5 => SessionMessageType::AuthenticationCommand,
            0xc6 => SessionMessageType::AuthenticationComplete,
            0xc7 => SessionMessageType::AuthenticationResult,
            0xc9 => SessionMessageType::ModificationRequest,
            0xca => SessionMessageType::ModificationReject,
            0xcb => SessionMessageType::ModificationCommand,
            0xcc => SessionMessageType::ModificationComplete,
            0xcd => SessionMessageType::ModificationCommandReject,
            0xd1 => SessionMessageType::ReleaseRequest,
            0xd2 => SessionMessageType::ReleaseReject,
            0xd3 => SessionMessageType::ReleaseCommand,
            0xd4 => SessionMessageType::ReleaseComplete,
            _ => SessionMessageType::Unknown,
        }
    }

    /// The subtype this decoder is for.
    pub fn default() -> (r: SessionMessageType)
        ensures
            r == SessionMessageType::EstablishmentAccept,
    {
        SessionMessageType::EstablishmentAccept
    }
}

/// The fixed message header shared by all session-management messages.
#[derive(Debug, Clone, Copy, PartialEq, Eq, Structural)]
pub struct PduSessionPlainMsg {
    pub extendedprotocoldiscriminator: ExtendedProtocolDiscriminator,
    pub pdusessionidentity: PDUSessionIdentity,
    pub proceduretransactionidentity: ProcedureTransactionIdentity,
    pub messagetype: SessionMessageType,
}

} // verus!
