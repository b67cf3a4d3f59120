use vstd::prelude::*;

use crate::control_packets::mqtt_packet::reason_codes::ReasonCode;
use crate::control_packets::mqtt_packet::reason_codes;

verus! {

/// The reason codes a CONNACK packet may carry.
#[derive(Debug, Clone, Copy, PartialEq, Eq, Structural)]
pub enum ConnectReasonMode {
    Success,
    _UnspecifiedError,
    _MalformedPacket,
    _ProtocolError,
    _ImplementationSpecificError,
    _UnsupportedProtocolVersion,
    _ClientIdentifierNotValid,
    _BadUserNameOrPassword,
    _NotAuthorized,
    _ServerUnavailable,
    _ServerBusy,
    _Banned,
    _BadAuthenticationMethod,
    _TopicNameInvalid,
    _PacketTooLarge,
    _QuotaExceeded,
    _PayloadFormatInvalid,
    _RetainNotSupported,
    _QoSNotSupported,
    _UseAnotherServer,
    _ServerMoved,
    _ConnectionRateExceeded,
}

/// The value of a connect reason code.
pub open spec fn connect_reason_id(c: ConnectReasonMode) -> u8 {
    match c {
        ConnectReasonMode::Success => 0,
        ConnectReasonMode::_UnspecifiedError => 128,
        ConnectReasonMode::_MalformedPacket => 129,
        ConnectReasonMode::_ProtocolError => 130,
        ConnectReasonMode::_ImplementationSpecificError => 131,
        ConnectReasonMode::_UnsupportedProtocolVersion => 132,
        ConnectReasonMode::_ClientIdentifierNotValid => 133,
        ConnectReasonMode::_BadUserNameOrPassword => 134,
        ConnectReasonMode::_NotAuthorized => 135,
        ConnectReasonMode::_ServerUnavailable => 136,
        ConnectReasonMode::_ServerBusy => 137,
        ConnectReasonMode::_Banned => 138,
        ConnectReasonMode::_BadAuthenticationMethod => 140,
        ConnectReasonMode::_TopicNameInvalid => 144,
        ConnectReasonMode::_PacketTooLarge => 149,
        ConnectReasonMode::_QuotaExceeded => 151,
        ConnectReasonMode::_PayloadFormatInvalid => 153,
        ConnectReasonMode::_RetainNotSupported => 154,
        ConnectReasonMode::_QoSNotSupported => 155,
        ConnectReasonMode::_UseAnotherServer => 156,
        ConnectReasonMode::_ServerMoved => 157,
        ConnectReasonMode::_ConnectionRateExceeded => 159,
    }
}

impl ConnectReasonMode {
    /// The value of the code.
    pub fn get_id(&self) -> (res: u8)
        ensures
            res == connect_reason_id(*self),
    {
        match *self {
            ConnectReasonMode::Success => 0,
            ConnectReasonMode::_UnspecifiedError => 128,
            ConnectReasonMode::_MalformedPacket => 129,
            ConnectReasonMode::_ProtocolError => 130,
            ConnectReasonMode::_ImplementationSpecificError => 131,
            ConnectReasonMode::_UnsupportedProtocolVersion => 132,
            ConnectReasonMode::_ClientIdentifierNotValid => 133,
            ConnectReasonMode::_BadUserNameOrPassword => 134,
            ConnectReasonMode::_NotAuthorized => 135,
            ConnectReasonMode::_ServerUnavailable => 136,
            ConnectReasonMode::_ServerBusy => 137,
            ConnectReasonMode::_Banned => 138,
            ConnectReasonMode::_BadAuthenticationMethod => 140,
            ConnectReasonMode::_TopicNameInvalid => 144,
            ConnectReasonMode::_PacketTooLarge => 149,
            ConnectReasonMode::_QuotaExceeded => 151,
            ConnectReasonMode::_PayloadFormatInvalid => 153,
            ConnectReasonMode::_RetainNotSupported => 154,
            ConnectReasonMode::_QoSNotSupported => 155,
            ConnectReasonMode::_UseAnotherServer => 156,
            ConnectReasonMode::_ServerMoved => 157,
            ConnectReasonMode::_ConnectionRateExceeded => 159,
        }
    }
}

/// No two connect reason codes share a value.
pub proof fn lemma_connect_reason_id_injective(a: ConnectReasonMode, b: ConnectReasonMode)
    requires
        connect_reason_id(a) == connect_reason_id(b),
    ensures
        a == b,
{
}

/// The values of the CONNACK reason codes, as the MQTT 5 table gives them.
pub proof fn lemma_connect_reason_values()
    ensures
        connect_reason_id(ConnectReasonMode::Success) == 0u8,
        connect_reason_id(ConnectReasonMode::_UnspecifiedError) == 128u8,
        connect_reason_id(ConnectReasonMode::_MalformedPacket) == 129u8,
        connect_reason_id(ConnectReasonMode::_ProtocolError) == 130u8,
        connect_reason_id(ConnectReasonMode::_ImplementationSpecificError) == 131u8,
        connect_reason_id(ConnectReasonMode::_UnsupportedProtocolVersion) == 132u8,
        connect_reason_id(ConnectReasonMode::_ClientIdentifierNotValid) == 133u8,
        connect_reason_id(ConnectReasonMode::_BadUserNameOrPassword) == 134u8,
        connect_reason_id(ConnectReasonMode::_NotAuthorized) == 135u8,
        connect_reason_id(ConnectReasonMode::_ServerUnavailable) == 136u8,
        connect_reason_id(ConnectReasonMode::_ServerBusy) == 137u8,
        connect_reason_id(ConnectReasonMode::_Banned) == 138u8,
        connect_reason_id(ConnectReasonMode::_BadAuthenticationMethod) == 140u8,
        connect_reason_id(ConnectReasonMode::_TopicNameInvalid) == 144u8,
        connect_reason_id(ConnectReasonMode::_PacketTooLarge) == 149u8,
        connect_reason_id(ConnectReasonMode::_QuotaExceeded) == 151u8,
        connect_reason_id(ConnectReasonMode::_PayloadFormatInvalid) == 153u8,
        connect_reason_id(ConnectReasonMode::_RetainNotSupported) == 154u8,
        connect_reason_id(ConnectReasonMode::_QoSNotSupported) == 155u8,
        connect_reason_id(ConnectReasonMode::_UseAnotherServer) == 156u8,
        connect_reason_id(ConnectReasonMode::_ServerMoved) == 157u8,
        connect_reason_id(ConnectReasonMode::_ConnectionRateExceeded) == 159u8,
{
}

/// Each CONNACK reason code has the value of the reason code of the same name.
pub proof fn lemma_connect_reason_matches_reason_code()
    ensures
        connect_reason_id(ConnectReasonMode::Success) == reason_codes::reason_code_id(ReasonCode::Success),
        connect_reason_id(ConnectReasonMode::_UnspecifiedError) == reason_codes::reason_code_id(ReasonCode::UnspecifiedError),
        connect_reason_id(ConnectReasonMode::_MalformedPacket) == reason_codes::reason_code_id(ReasonCode::MalformedPacket),
        connect_reason_id(ConnectReasonMode::_ProtocolError) == reason_codes::reason_code_id(ReasonCode::ProtocolError),
        connect_reason_id(ConnectReasonMode::_ImplementationSpecificError) == reason_codes::reason_code_id(ReasonCode::ImplementationSpecificError),
        connect_reason_id(ConnectReasonMode::_UnsupportedProtocolVersion) == reason_codes::reason_code_id(ReasonCode::UnsupportedProtocolVersion),
        connect_reason_id(ConnectReasonMode::_ClientIdentifierNotValid) == reason_codes::reason_code_id(ReasonCode::ClientIdentifierNotValid),
        connect_reason_id(ConnectReasonMode::_BadUserNameOrPassword) == reason_codes::reason_code_id(ReasonCode::BadUserNameOrPassword),
        connect_reason_id(ConnectReasonMode::_NotAuthorized) == reason_codes::reason_code_id(ReasonCode::NotAuthorized),
        connect_reason_id(ConnectReasonMode::_ServerUnavailable) == reason_codes::reason_code_id(ReasonCode::ServerUnavailable),
        connect_reason_id(ConnectReasonMode::_ServerBusy) == reason_codes::reason_code_id(ReasonCode::ServerBusy),
        connect_reason_id(ConnectReasonMode::_Banned) == reason_codes::reason_code_id(ReasonCode::Banned),
        connect_reason_id(ConnectReasonMode::_BadAuthenticationMethod) == reason_codes::reason_code_id(ReasonCode::BadAuthenticationMethod),
        connect_reason_id(ConnectReasonMode::_TopicNameInvalid) == reason_codes::reason_code_id(ReasonCode::TopicNameInvalid),
        connect_reason_id(ConnectReasonMode::_PacketTooLarge) == reason_codes::reason_code_id(ReasonCode::PacketTooLarge),
        connect_reason_id(ConnectReasonMode::_QuotaExceeded) == reason_codes::reason_code_id(ReasonCode::QuotaExceeded),
        connect_reason_id(ConnectReasonMode::_PayloadFormatInvalid) == reason_codes::reason_code_id(ReasonCode::PayloadFormatInvalid),
        connect_reason_id(ConnectReasonMode::_RetainNotSupported) == reason_codes::reason_code_id(ReasonCode::RetainNotSupported),
        connect_reason_id(ConnectReasonMode::_QoSNotSupported) == reason_codes::reason_code_id(ReasonCode::QoSNotSupported),
        connect_reason_id(ConnectReasonMode::_UseAnotherServer) == reason_codes::reason_code_id(ReasonCode::UseAnotherServer),
        connect_reason_id(ConnectReasonMode::_ServerMoved) == reason_codes::reason_code_id(ReasonCode::ServerMoved),
        connect_reason_id(ConnectReasonMode::_ConnectionRateExceeded) == reason_codes::reason_code_id(ReasonCode::ConnectionRateExceeded),
{
}

} // verus!
