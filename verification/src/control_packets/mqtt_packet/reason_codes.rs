use vstd::prelude::*;

verus! {

/// The reason codes of MQTT 5 packets. Some codes share a value: 0 is Success, Normal
/// Disconnection and Granted QoS 0.
#[derive(Debug, Clone, Copy, PartialEq, Eq, Structural)]
pub enum ReasonCode {
    Success,
    NormalDisconnection,
    GrantedQoS0,
    GrantedQoS1,
    GrantedQoS2,
    DisconnectWithWillMessage,
    NoMatchingSubscribers,
    NoSubscriptionExisted,
    ContinueAuthentication,
    ReAuthenticate,
    UnspecifiedError,
    MalformedPacket,
    ProtocolError,
    ImplementationSpecificError,
    UnsupportedProtocolVersion,
    ClientIdentifierNotValid,
    BadUserNameOrPassword,
    NotAuthorized,
    ServerUnavailable,
    ServerBusy,
    Banned,
    ServerShuttingDown,
    BadAuthenticationMethod,
    KeepAliveTimeout,
    SessionTakenOver,
    TopicFilterInvalid,
    TopicNameInvalid,
    PacketIdentifierInUse,
    ReceiveMaximumExceeded,
    TopicAliasInvalid,
    PacketTooLarge,
    MessageRateTooHigh,
    QuotaExceeded,
    AdministrativeAction,
    PayloadFormatInvalid,
    RetainNotSupported,
    QoSNotSupported,
    UseAnotherServer,
    ServerMoved,
    SharedSubscriptionsNotSupported,
    ConnectionRateExceeded,
    MaximumConnectTime,
    SubscriptionIdentifiersNotSupported,
    WildcardSubscriptionsNotSupported,
}

/// The value of a reason code.
pub open spec fn reason_code_id(c: ReasonCode) -> u8 {
    match c {
        ReasonCode::Success => 0,
        ReasonCode::NormalDisconnection => 0,
        ReasonCode::GrantedQoS0 => 0,
        ReasonCode::GrantedQoS1 => 1,
        ReasonCode::GrantedQoS2 => 2,
        ReasonCode::DisconnectWithWillMessage => 4,
        ReasonCode::NoMatchingSubscribers => 16,
        ReasonCode::NoSubscriptionExisted => 17,
        ReasonCode::ContinueAuthentication => 24,
        ReasonCode::ReAuthenticate => 25,
        ReasonCode::UnspecifiedError => 128,
        ReasonCode::MalformedPacket => 129,
        ReasonCode::ProtocolError => 130,
        ReasonCode::ImplementationSpecificError => 131,
        ReasonCode::UnsupportedProtocolVersion => 132,
        ReasonCode::ClientIdentifierNotValid => 133,
        ReasonCode::BadUserNameOrPassword => 134,
        ReasonCode::NotAuthorized => 135,
        ReasonCode::ServerUnavailable => 136,
        ReasonCode::ServerBusy => 137,
        ReasonCode::Banned => 138,
        ReasonCode::ServerShuttingDown => 139,
        ReasonCode::BadAuthenticationMethod => 140,
        ReasonCode::KeepAliveTimeout => 141,
        ReasonCode::SessionTakenOver => 142,
        ReasonCode::TopicFilterInvalid => 143,
        ReasonCode::TopicNameInvalid => 144,
        ReasonCode::PacketIdentifierInUse => 145,
        ReasonCode::ReceiveMaximumExceeded => 147,
        ReasonCode::TopicAliasInvalid => 148,
        ReasonCode::PacketTooLarge => 149,
        ReasonCode::MessageRateTooHigh => 150,
        ReasonCode::QuotaExceeded => 151,
        ReasonCode::AdministrativeAction => 152,
        ReasonCode::PayloadFormatInvalid => 153,
        ReasonCode::RetainNotSupported => 154,
        ReasonCode::QoSNotSupported => 155,
        ReasonCode::UseAnotherServer => 156,
        ReasonCode::ServerMoved => 157,
        ReasonCode::SharedSubscriptionsNotSupported => 158,
        ReasonCode::ConnectionRateExceeded => 159,
        ReasonCode::MaximumConnectTime => 160,
        ReasonCode::SubscriptionIdentifiersNotSupported => 161,
        ReasonCode::WildcardSubscriptionsNotSupported => 162,
    }
}

/// The reason code a value denotes; an unknown value denotes Unspecified Error, and 0
/// denotes Success.
pub open spec fn reason_code_of(id: u8) -> ReasonCode {
    if id == 0 {
        ReasonCode::Success
    } else if id == 1 {
        ReasonCode::GrantedQoS1
    } else if id == 2 {
        ReasonCode::GrantedQoS2
    } else if id == 4 {
        ReasonCode::DisconnectWithWillMessage
    } else if id == 16 {
        ReasonCode::NoMatchingSubscribers
    } else if id == 17 {
        ReasonCode::NoSubscriptionExisted
    } else if id == 24 {
        ReasonCode::ContinueAuthentication
    } else if id == 25 {
        ReasonCode::ReAuthenticate
    } else if id == 128 {
        ReasonCode::UnspecifiedError
    } else if id == 129 {
        ReasonCode::MalformedPacket
    } else if id == 130 {
        ReasonCode::ProtocolError
    } else if id == 131 {
        ReasonCode::ImplementationSpecificError
    } else if id == 132 {
        ReasonCode::UnsupportedProtocolVersion
    } else if id == 133 {
        ReasonCode::ClientIdentifierNotValid
    } else if id == 134 {
        ReasonCode::BadUserNameOrPassword
    } else if id == 135 {
        ReasonCode::NotAuthorized
    } else if id == 136 {
        ReasonCode::ServerUnavailable
    } else if id == 137 {
        ReasonCode::ServerBusy
    } else if id == 138 {
        ReasonCode::Banned
    } else if id == 139 {
        ReasonCode::ServerShuttingDown
    } else if id == 140 {
        ReasonCode::BadAuthenticationMethod
    } else if id == 141 {
        ReasonCode::KeepAliveTimeout
    } else if id == 142 {
        ReasonCode::SessionTakenOver
    } else if id == 143 {
        ReasonCode::TopicFilterInvalid
    } else if id == 144 {
        ReasonCode::TopicNameInvalid
    } else if id == 145 {
        ReasonCode::PacketIdentifierInUse
    } else if id == 147 {
        ReasonCode::ReceiveMaximumExceeded
    } else if id == 148 {
        ReasonCode::TopicAliasInvalid
    } else if id == 149 {
        ReasonCode::PacketTooLarge
    } else if id == 150 {
        ReasonCode::MessageRateTooHigh
    } else if id == 151 {
        ReasonCode::QuotaExceeded
    } else if id == 152 {
        ReasonCode::AdministrativeAction
    } else if id == 153 {
        ReasonCode::PayloadFormatInvalid
    } else if id == 154 {
        ReasonCode::RetainNotSupported
    } else if id == 155 {
        ReasonCode::QoSNotSupported
    } else if id == 156 {
        ReasonCode::UseAnotherServer
    } else if id == 157 {
        ReasonCode::ServerMoved
    } else if id == 158 {
        ReasonCode::SharedSubscriptionsNotSupported
    } else if id == 159 {
        ReasonCode::ConnectionRateExceeded
    } else if id == 160 {
        ReasonCode::MaximumConnectTime
    } else if id == 161 {
        ReasonCode::SubscriptionIdentifiersNotSupported
    } else if id == 162 {
        ReasonCode::WildcardSubscriptionsNotSupported
    } else {
        ReasonCode::UnspecifiedError
    }
}

/// The values that denote a reason code.
pub open spec fn is_known_reason_code(id: u8) -> bool {
    id == 0 || id == 1 || id == 2 || id == 4 || id == 16 || id == 17 || id == 24 || id == 25 || id == 128 || id == 129 || id == 130 || id == 131 || id == 132 || id == 133 || id == 134 || id == 135 || id == 136 || id == 137 || id == 138 || id == 139 || id == 140 || id == 141 || id == 142 || id == 143 || id == 144 || id == 145 || id == 147 || id == 148 || id == 149 || id == 150 || id == 151 || id == 152 || id == 153 || id == 154 || id == 155 || id == 156 || id == 157 || id == 158 || id == 159 || id == 160 || id == 161 || id == 162
}

/// The codes a server may close a connection with.
pub open spec fn server_disconnect_code(c: ReasonCode) -> bool {
    c == ReasonCode::NormalDisconnection
        || c == ReasonCode::UnspecifiedError
        || c == ReasonCode::MalformedPacket
        || c == ReasonCode::ProtocolError
        || c == ReasonCode::ImplementationSpecificError
        || c == ReasonCode::NotAuthorized
        || c == ReasonCode::ServerBusy
        || c == ReasonCode::ServerShuttingDown
        || c == ReasonCode::KeepAliveTimeout
        || c == ReasonCode::SessionTakenOver
        || c == ReasonCode::TopicFilterInvalid
        || c == ReasonCode::TopicNameInvalid
        || c == ReasonCode::ReceiveMaximumExceeded
        || c == ReasonCode::TopicAliasInvalid
        || c == ReasonCode::PacketTooLarge
        || c == ReasonCode::MessageRateTooHigh
        || c == ReasonCode::QuotaExceeded
        || c == ReasonCode::AdministrativeAction
        || c == ReasonCode::PayloadFormatInvalid
        || c == ReasonCode::RetainNotSupported
        || c == ReasonCode::QoSNotSupported
        || c == ReasonCode::UseAnotherServer
        || c == ReasonCode::ServerMoved
        || c == ReasonCode::SharedSubscriptionsNotSupported
        || c == ReasonCode::ConnectionRateExceeded
        || c == ReasonCode::MaximumConnectTime
        || c == ReasonCode::SubscriptionIdentifiersNotSupported
        || c == ReasonCode::WildcardSubscriptionsNotSupported
}

/// The codes a client may close a connection with.
pub open spec fn client_disconnect_code(c: ReasonCode) -> bool {
    c == ReasonCode::NormalDisconnection
        || c == ReasonCode::DisconnectWithWillMessage
        || c == ReasonCode::UnspecifiedError
        || c == ReasonCode::MalformedPacket
        || c == ReasonCode::ProtocolError
        || c == ReasonCode::ImplementationSpecificError
        || c == ReasonCode::TopicNameInvalid
        || c == ReasonCode::ReceiveMaximumExceeded
        || c == ReasonCode::TopicAliasInvalid
        || c == ReasonCode::PacketTooLarge
        || c == ReasonCode::MessageRateTooHigh
        || c == ReasonCode::QuotaExceeded
        || c == ReasonCode::AdministrativeAction
        || c == ReasonCode::PayloadFormatInvalid
}

/// The text that describes a reason code.
pub open spec fn reason_code_label(c: ReasonCode) -> Seq<char> {
    match c {
        ReasonCode::Success => "Success"@,
        ReasonCode::NormalDisconnection => "Normal Disconnection"@,
        ReasonCode::GrantedQoS0 => "Granted QoS 0"@,
        ReasonCode::GrantedQoS1 => "Granted QoS 1"@,
        ReasonCode::GrantedQoS2 => "Granted QoS 2"@,
        ReasonCode::DisconnectWithWillMessage => "Disconnect With Will Message"@,
        ReasonCode::NoMatchingSubscribers => "No Matching Subscribers"@,
        ReasonCode::NoSubscriptionExisted => "No Subscription Existed"@,
        ReasonCode::ContinueAuthentication => "Continue Authentication"@,
        ReasonCode::ReAuthenticate => "Re-authenticate"@,
        ReasonCode::UnspecifiedError => "Unspecified Error"@,
        ReasonCode::MalformedPacket => "Malformed Packet"@,
        ReasonCode::ProtocolError => "Protocol Error"@,
        ReasonCode::ImplementationSpecificError => "Implementation Specific Error"@,
        ReasonCode::UnsupportedProtocolVersion => "Unsupported Protocol Version"@,
        ReasonCode::ClientIdentifierNotValid => "Client Identifier not valid"@,
        ReasonCode::BadUserNameOrPassword => "Bad User Name or Password"@,
        ReasonCode::NotAuthorized => "Not authorized"@,
        ReasonCode::ServerUnavailable => "Server unavailable"@,
        ReasonCode::ServerBusy => "Server busy"@,
        ReasonCode::Banned => "Banned"@,
        ReasonCode::ServerShuttingDown => "Server shutting down"@,
        ReasonCode::BadAuthenticationMethod => "Bad authentication method"@,
        ReasonCode::KeepAliveTimeout => "Keep alive timeout"@,
        ReasonCode::SessionTakenOver => "Session taken over"@,
        ReasonCode::TopicFilterInvalid => "Topic filter invalid"@,
        ReasonCode::TopicNameInvalid => "Topic name invalid"@,
        ReasonCode::PacketIdentifierInUse => "Packet identifier in use"@,
        ReasonCode::ReceiveMaximumExceeded => "Receive maximum exceeded"@,
        ReasonCode::TopicAliasInvalid => "Topic alias invalid"@,
        ReasonCode::PacketTooLarge => "Packet too large"@,
        ReasonCode::MessageRateTooHigh => "Message rate too high"@,
        ReasonCode::QuotaExceeded => "Quota exceeded"@,
        ReasonCode::AdministrativeAction => "Administrative action"@,
        ReasonCode::PayloadFormatInvalid => "Payload format invalid"@,
        ReasonCode::RetainNotSupported => "Retain not supported"@,
        ReasonCode::QoSNotSupported => "QoS not supported"@,
        ReasonCode::UseAnotherServer => "Use another server"@,
        ReasonCode::ServerMoved => "Server moved"@,
        ReasonCode::SharedSubscriptionsNotSupported => "Shared subscriptions not supported"@,
        ReasonCode::ConnectionRateExceeded => "Connection rate exceeded"@,
        ReasonCode::MaximumConnectTime => "Maximum connect time"@,
        ReasonCode::SubscriptionIdentifiersNotSupported => "Subscription identifiers not supported"@,
        ReasonCode::WildcardSubscriptionsNotSupported => "Wildcard subscriptions not supported"@,
    }
}

/// The decimal digits of a number.
pub open spec fn decimal(n: nat) -> Seq<char>
    decreases n,
{
    if n < 10 {
        seq![(n + 48) as char]
    } else {
        decimal(n / 10) + seq![((n % 10) + 48) as char]
    }
}

/// `format!` on a byte and a text: the byte in decimal, a dash between spaces, the text.
#[verifier::external_body]
fn format_id_and_label(id: u8, label: &str) -> (res: String)
    ensures
        res@ == decimal(id as nat) + " - "@ + label@,
{
    format!("{} - {}", id, label)
}

impl ReasonCode {
    /// The value of the code.
    pub fn get_id(&self) -> (res: u8)
        ensures
            res == reason_code_id(*self),
    {
        match *self {
            ReasonCode::Success => 0,
            ReasonCode::NormalDisconnection => 0,
            ReasonCode::GrantedQoS0 => 0,
            ReasonCode::GrantedQoS1 => 1,
            ReasonCode::GrantedQoS2 => 2,
            ReasonCode::DisconnectWithWillMessage => 4,
            ReasonCode::NoMatchingSubscribers => 16,
            ReasonCode::NoSubscriptionExisted => 17,
            ReasonCode::ContinueAuthentication => 24,
            ReasonCode::ReAuthenticate => 25,
            ReasonCode::UnspecifiedError => 128,
            ReasonCode::MalformedPacket => 129,
            ReasonCode::ProtocolError => 130,
            ReasonCode::ImplementationSpecificError => 131,
            ReasonCode::UnsupportedProtocolVersion => 132,
            ReasonCode::ClientIdentifierNotValid => 133,
            ReasonCode::BadUserNameOrPassword => 134,
            ReasonCode::NotAuthorized => 135,
            ReasonCode::ServerUnavailable => 136,
            ReasonCode::ServerBusy => 137,
            ReasonCode::Banned => 138,
            ReasonCode::ServerShuttingDown => 139,
            ReasonCode::BadAuthenticationMethod => 140,
            ReasonCode::KeepAliveTimeout => 141,
            ReasonCode::SessionTakenOver => 142,
            ReasonCode::TopicFilterInvalid => 143,
            ReasonCode::TopicNameInvalid => 144,
            ReasonCode::PacketIdentifierInUse => 145,
            ReasonCode::ReceiveMaximumExceeded => 147,
            ReasonCode::TopicAliasInvalid => 148,
            ReasonCode::PacketTooLarge => 149,
            ReasonCode::MessageRateTooHigh => 150,
            ReasonCode::QuotaExceeded => 151,
            ReasonCode::AdministrativeAction => 152,
            ReasonCode::PayloadFormatInvalid => 153,
            ReasonCode::RetainNotSupported => 154,
            ReasonCode::QoSNotSupported => 155,
            ReasonCode::UseAnotherServer => 156,
            ReasonCode::ServerMoved => 157,
            ReasonCode::SharedSubscriptionsNotSupported => 158,
            ReasonCode::ConnectionRateExceeded => 159,
            ReasonCode::MaximumConnectTime => 160,
            ReasonCode::SubscriptionIdentifiersNotSupported => 161,
            ReasonCode::WildcardSubscriptionsNotSupported => 162,
        }
    }

    /// The code a value denotes; an unknown value gives Unspecified Error.
    pub fn new(id: u8) -> (res: Self)
        ensures
            res == reason_code_of(id),
    {
        match id {
            0 => ReasonCode::Success,
            1 => ReasonCode::GrantedQoS1,
            2 => ReasonCode::GrantedQoS2,
            4 => ReasonCode::DisconnectWithWillMessage,
            16 => ReasonCode::NoMatchingSubscribers,
            17 => ReasonCode::NoSubscriptionExisted,
            24 => ReasonCode::ContinueAuthentication,
            25 => ReasonCode::ReAuthenticate,
            128 => ReasonCode::UnspecifiedError,
            129 => ReasonCode::MalformedPacket,
            130 => ReasonCode::ProtocolError,
            131 => ReasonCode::ImplementationSpecificError,
            132 => ReasonCode::UnsupportedProtocolVersion,
            133 => ReasonCode::ClientIdentifierNotValid,
            134 => ReasonCode::BadUserNameOrPassword,
            135 => ReasonCode::NotAuthorized,
            136 => ReasonCode::ServerUnavailable,
            137 => ReasonCode::ServerBusy,
            138 => ReasonCode::Banned,
            139 => ReasonCode::ServerShuttingDown,
            140 => ReasonCode::BadAuthenticationMethod,
            141 => ReasonCode::KeepAliveTimeout,
            142 => ReasonCode::SessionTakenOver,
            143 => ReasonCode::TopicFilterInvalid,
            144 => ReasonCode::TopicNameInvalid,
            145 => ReasonCode::PacketIdentifierInUse,
            147 => ReasonCode::ReceiveMaximumExceeded,
            148 => ReasonCode::TopicAliasInvalid,
            149 => ReasonCode::PacketTooLarge,
            150 => ReasonCode::MessageRateTooHigh,
            151 => ReasonCode::QuotaExceeded,
            152 => ReasonCode::AdministrativeAction,
            153 => ReasonCode::PayloadFormatInvalid,
            154 => ReasonCode::RetainNotSupported,
            155 => ReasonCode::QoSNotSupported,
            156 => ReasonCode::UseAnotherServer,
            157 => ReasonCode::ServerMoved,
            158 => ReasonCode::SharedSubscriptionsNotSupported,
            159 => ReasonCode::ConnectionRateExceeded,
            160 => ReasonCode::MaximumConnectTime,
            161 => ReasonCode::SubscriptionIdentifiersNotSupported,
            162 => ReasonCode::WildcardSubscriptionsNotSupported,
            _ => ReasonCode::UnspecifiedError,
        }
    }

    /// Whether a server may close a connection with this code.
    pub fn is_valid_disconnect_code_from_server(&self) -> (res: bool)
        ensures
            res == server_disconnect_code(*self),
    {
        match *self {
            ReasonCode::NormalDisconnection => true,
            ReasonCode::UnspecifiedError => true,
            ReasonCode::MalformedPacket => true,
            ReasonCode::ProtocolError => true,
            ReasonCode::ImplementationSpecificError => true,
            ReasonCode::NotAuthorized => true,
            ReasonCode::ServerBusy => true,
            ReasonCode::ServerShuttingDown => true,
            ReasonCode::KeepAliveTimeout => true,
            ReasonCode::SessionTakenOver => true,
            ReasonCode::TopicFilterInvalid => true,
            ReasonCode::TopicNameInvalid => true,
            ReasonCode::ReceiveMaximumExceeded => true,
            ReasonCode::TopicAliasInvalid => true,
            ReasonCode::PacketTooLarge => true,
            ReasonCode::MessageRateTooHigh => true,
            ReasonCode::QuotaExceeded => true,
            ReasonCode::AdministrativeAction => true,
            ReasonCode::PayloadFormatInvalid => true,
            ReasonCode::RetainNotSupported => true,
            ReasonCode::QoSNotSupported => true,
            ReasonCode::UseAnotherServer => true,
            ReasonCode::ServerMoved => true,
            ReasonCode::SharedSubscriptionsNotSupported => true,
            ReasonCode::ConnectionRateExceeded => true,
            ReasonCode::MaximumConnectTime => true,
            ReasonCode::SubscriptionIdentifiersNotSupported => true,
            ReasonCode::WildcardSubscriptionsNotSupported => true,
            _ => false,
        }
    }

    /// Whether a client may close a connection with this code.
    pub fn is_valid_disconnect_code_from_client(&self) -> (res: bool)
        ensures
            res == client_disconnect_code(*self),
    {
        match *self {
            ReasonCode::NormalDisconnection => true,
            ReasonCode::DisconnectWithWillMessage => true,
            ReasonCode::UnspecifiedError => true,
            ReasonCode::MalformedPacket => true,
            ReasonCode::ProtocolError => true,
            ReasonCode::ImplementationSpecificError => true,
            ReasonCode::TopicNameInvalid => true,
            ReasonCode::ReceiveMaximumExceeded => true,
            ReasonCode::TopicAliasInvalid => true,
            ReasonCode::PacketTooLarge => true,
            ReasonCode::MessageRateTooHigh => true,
            ReasonCode::QuotaExceeded => true,
            ReasonCode::AdministrativeAction => true,
            ReasonCode::PayloadFormatInvalid => true,
            _ => false,
        }
    }

    /// The text of the code: its value in decimal, a dash, and what it means.
    pub fn to_string(&self) -> (res: String)
        ensures
            res@ == decimal(reason_code_id(*self) as nat) + " - "@ + reason_code_label(*self),
    {
        let label = match *self {
            ReasonCode::Success => "Success",
            ReasonCode::NormalDisconnection => "Normal Disconnection",
            ReasonCode::GrantedQoS0 => "Granted QoS 0",
            ReasonCode::GrantedQoS1 => "Granted QoS 1",
            ReasonCode::GrantedQoS2 => "Granted QoS 2",
            ReasonCode::DisconnectWithWillMessage => "Disconnect With Will Message",
            ReasonCode::NoMatchingSubscribers => "No Matching Subscribers",
            ReasonCode::NoSubscriptionExisted => "No Subscription Existed",
            ReasonCode::ContinueAuthentication => "Continue Authentication",
            ReasonCode::ReAuthenticate => "Re-authenticate",
            ReasonCode::UnspecifiedError => "Unspecified Error",
            ReasonCode::MalformedPacket => "Malformed Packet",
            ReasonCode::ProtocolError => "Protocol Error",
            ReasonCode::ImplementationSpecificError => "Implementation Specific Error",
            ReasonCode::UnsupportedProtocolVersion => "Unsupported Protocol Version",
            ReasonCode::ClientIdentifierNotValid => "Client Identifier not valid",
            ReasonCode::BadUserNameOrPassword => "Bad User Name or Password",
            ReasonCode::NotAuthorized => "Not authorized",
            ReasonCode::ServerUnavailable => "Server unavailable",
            ReasonCode::ServerBusy => "Server busy",
            ReasonCode::Banned => "Banned",
            ReasonCode::ServerShuttingDown => "Server shutting down",
            ReasonCode::BadAuthenticationMethod => "Bad authentication method",
            ReasonCode::KeepAliveTimeout => "Keep alive timeout",
            ReasonCode::SessionTakenOver => "Session taken over",
            ReasonCode::TopicFilterInvalid => "Topic filter invalid",
            ReasonCode::TopicNameInvalid => "Topic name invalid",
            ReasonCode::PacketIdentifierInUse => "Packet identifier in use",
            ReasonCode::ReceiveMaximumExceeded => "Receive maximum exceeded",
            ReasonCode::TopicAliasInvalid => "Topic alias invalid",
            ReasonCode::PacketTooLarge => "Packet too large",
            ReasonCode::MessageRateTooHigh => "Message rate too high",
            ReasonCode::QuotaExceeded => "Quota exceeded",
            ReasonCode::AdministrativeAction => "Administrative action",
            ReasonCode::PayloadFormatInvalid => "Payload format invalid",
            ReasonCode::RetainNotSupported => "Retain not supported",
            ReasonCode::QoSNotSupported => "QoS not supported",
            ReasonCode::UseAnotherServer => "Use another server",
            ReasonCode::ServerMoved => "Server moved",
            ReasonCode::SharedSubscriptionsNotSupported => "Shared subscriptions not supported",
            ReasonCode::ConnectionRateExceeded => "Connection rate exceeded",
            ReasonCode::MaximumConnectTime => "Maximum connect time",
            ReasonCode::SubscriptionIdentifiersNotSupported => "Subscription identifiers not supported",
            ReasonCode::WildcardSubscriptionsNotSupported => "Wildcard subscriptions not supported",
        };
        format_id_and_label(self.get_id(), label)
    }
}

/// Every value the codes have denotes a code with that value.
pub proof fn lemma_reason_code_id_known(c: ReasonCode)
    ensures
        is_known_reason_code(reason_code_id(c)),
        reason_code_id(reason_code_of(reason_code_id(c))) == reason_code_id(c),
{
}

/// Reading back the value of a code gives the code, except for the codes that share the
/// value 0 with Success.
#[verifier::spinoff_prover]
#[verifier::rlimit(30)]
pub proof fn lemma_reason_code_roundtrip(c: ReasonCode)
    requires
        c != ReasonCode::NormalDisconnection,
        c != ReasonCode::GrantedQoS0,
    ensures
        reason_code_of(reason_code_id(c)) == c,
{
}

/// The code a value denotes has that value when the value is known, and is Unspecified
/// Error otherwise.
pub proof fn lemma_reason_code_of(id: u8)
    ensures
        reason_code_id(reason_code_of(id)) == (if is_known_reason_code(id) {
            id
        } else {
            128
        }),
{
}

/// The MQTT 5 table of reason codes: the value each code is written with.
pub proof fn lemma_reason_code_values()
    ensures
        reason_code_id(ReasonCode::Success) == 0u8,
        reason_code_id(ReasonCode::NormalDisconnection) == 0u8,
        reason_code_id(ReasonCode::GrantedQoS0) == 0u8,
        reason_code_id(ReasonCode::GrantedQoS1) == 1u8,
        reason_code_id(ReasonCode::GrantedQoS2) == 2u8,
        reason_code_id(ReasonCode::DisconnectWithWillMessage) == 4u8,
        reason_code_id(ReasonCode::NoMatchingSubscribers) == 16u8,
        reason_code_id(ReasonCode::NoSubscriptionExisted) == 17u8,
        reason_code_id(ReasonCode::ContinueAuthentication) == 24u8,
        reason_code_id(ReasonCode::ReAuthenticate) == 25u8,
        reason_code_id(ReasonCode::UnspecifiedError) == 128u8,
        reason_code_id(ReasonCode::MalformedPacket) == 129u8,
        reason_code_id(ReasonCode::ProtocolError) == 130u8,
        reason_code_id(ReasonCode::ImplementationSpecificError) == 131u8,
        reason_code_id(ReasonCode::UnsupportedProtocolVersion) == 132u8,
        reason_code_id(ReasonCode::ClientIdentifierNotValid) == 133u8,
        reason_code_id(ReasonCode::BadUserNameOrPassword) == 134u8,
        reason_code_id(ReasonCode::NotAuthorized) == 135u8,
        reason_code_id(ReasonCode::ServerUnavailable) == 136u8,
        reason_code_id(ReasonCode::ServerBusy) == 137u8,
        reason_code_id(ReasonCode::Banned) == 138u8,
        reason_code_id(ReasonCode::ServerShuttingDown) == 139u8,
        reason_code_id(ReasonCode::BadAuthenticationMethod) == 140u8,
        reason_code_id(ReasonCode::KeepAliveTimeout) == 141u8,
        reason_code_id(ReasonCode::SessionTakenOver) == 142u8,
        reason_code_id(ReasonCode::TopicFilterInvalid) == 143u8,
        reason_code_id(ReasonCode::TopicNameInvalid) == 144u8,
        reason_code_id(ReasonCode::PacketIdentifierInUse) == 145u8,
        reason_code_id(ReasonCode::ReceiveMaximumExceeded) == 147u8,
        reason_code_id(ReasonCode::TopicAliasInvalid) == 148u8,
        reason_code_id(ReasonCode::PacketTooLarge) == 149u8,
        reason_code_id(ReasonCode::MessageRateTooHigh) == 150u8,
        reason_code_id(ReasonCode::QuotaExceeded) == 151u8,
        reason_code_id(ReasonCode::AdministrativeAction) == 152u8,
        reason_code_id(ReasonCode::PayloadFormatInvalid) == 153u8,
        reason_code_id(ReasonCode::RetainNotSupported) == 154u8,
        reason_code_id(ReasonCode::QoSNotSupported) == 155u8,
        reason_code_id(ReasonCode::UseAnotherServer) == 156u8,
        reason_code_id(ReasonCode::ServerMoved) == 157u8,
        reason_code_id(ReasonCode::SharedSubscriptionsNotSupported) == 158u8,
        reason_code_id(ReasonCode::ConnectionRateExceeded) == 159u8,
        reason_code_id(ReasonCode::MaximumConnectTime) == 160u8,
        reason_code_id(ReasonCode::SubscriptionIdentifiersNotSupported) == 161u8,
        reason_code_id(ReasonCode::WildcardSubscriptionsNotSupported) == 162u8,
{
}

/// The MQTT 5 table read the other way: the code each known value is read as (0 is read
/// as Success).
pub proof fn lemma_reason_code_of_values()
    ensures
        reason_code_of(0u8) == ReasonCode::Success,
        reason_code_of(1u8) == ReasonCode::GrantedQoS1,
        reason_code_of(2u8) == ReasonCode::GrantedQoS2,
        reason_code_of(4u8) == ReasonCode::DisconnectWithWillMessage,
        reason_code_of(16u8) == ReasonCode::NoMatchingSubscribers,
        reason_code_of(17u8) == ReasonCode::NoSubscriptionExisted,
        reason_code_of(24u8) == ReasonCode::ContinueAuthentication,
        reason_code_of(25u8) == ReasonCode::ReAuthenticate,
        reason_code_of(128u8) == ReasonCode::UnspecifiedError,
        reason_code_of(129u8) == ReasonCode::MalformedPacket,
        reason_code_of(130u8) == ReasonCode::ProtocolError,
        reason_code_of(131u8) == ReasonCode::ImplementationSpecificError,
        reason_code_of(132u8) == ReasonCode::UnsupportedProtocolVersion,
        reason_code_of(133u8) == ReasonCode::ClientIdentifierNotValid,
        reason_code_of(134u8) == ReasonCode::BadUserNameOrPassword,
        reason_code_of(135u8) == ReasonCode::NotAuthorized,
        reason_code_of(136u8) == ReasonCode::ServerUnavailable,
        reason_code_of(137u8) == ReasonCode::ServerBusy,
        reason_code_of(138u8) == ReasonCode::Banned,
        reason_code_of(139u8) == ReasonCode::ServerShuttingDown,
        reason_code_of(140u8) == ReasonCode::BadAuthenticationMethod,
        reason_code_of(141u8) == ReasonCode::KeepAliveTimeout,
        reason_code_of(142u8) == ReasonCode::SessionTakenOver,
        reason_code_of(143u8) == ReasonCode::TopicFilterInvalid,
        reason_code_of(144u8) == ReasonCode::TopicNameInvalid,
        reason_code_of(145u8) == ReasonCode::PacketIdentifierInUse,
        reason_code_of(147u8) == ReasonCode::ReceiveMaximumExceeded,
        reason_code_of(148u8) == ReasonCode::TopicAliasInvalid,
        reason_code_of(149u8) == ReasonCode::PacketTooLarge,
        reason_code_of(150u8) == ReasonCode::MessageRateTooHigh,
        reason_code_of(151u8) == ReasonCode::QuotaExceeded,
        reason_code_of(152u8) == ReasonCode::AdministrativeAction,
        reason_code_of(153u8) == ReasonCode::PayloadFormatInvalid,
        reason_code_of(154u8) == ReasonCode::RetainNotSupported,
        reason_code_of(155u8) == ReasonCode::QoSNotSupported,
        reason_code_of(156u8) == ReasonCode::UseAnotherServer,
        reason_code_of(157u8) == ReasonCode::ServerMoved,
        reason_code_of(158u8) == ReasonCode::SharedSubscriptionsNotSupported,
        reason_code_of(159u8) == ReasonCode::ConnectionRateExceeded,
        reason_code_of(160u8) == ReasonCode::MaximumConnectTime,
        reason_code_of(161u8) == ReasonCode::SubscriptionIdentifiersNotSupported,
        reason_code_of(162u8) == ReasonCode::WildcardSubscriptionsNotSupported,
{
}

/// The codes a server may close a connection with, code by code: Normal Disconnection and
/// the errors of a DISCONNECT; no acknowledgement, authentication step or CONNACK-only
/// refusal.
pub proof fn lemma_server_disconnect_codes()
    ensures
        server_disconnect_code(ReasonCode::Success) == false,
        server_disconnect_code(ReasonCode::NormalDisconnection) == true,
        server_disconnect_code(ReasonCode::GrantedQoS0) == false,
        server_disconnect_code(ReasonCode::GrantedQoS1) == false,
        server_disconnect_code(ReasonCode::GrantedQoS2) == false,
        server_disconnect_code(ReasonCode::DisconnectWithWillMessage) == false,
        server_disconnect_code(ReasonCode::NoMatchingSubscribers) == false,
        server_disconnect_code(ReasonCode::NoSubscriptionExisted) == false,
        server_disconnect_code(ReasonCode::ContinueAuthentication) == false,
        server_disconnect_code(ReasonCode::ReAuthenticate) == false,
        server_disconnect_code(ReasonCode::UnspecifiedError) == true,
        server_disconnect_code(ReasonCode::MalformedPacket) == true,
        server_disconnect_code(ReasonCode::ProtocolError) == true,
        server_disconnect_code(ReasonCode::ImplementationSpecificError) == true,
        server_disconnect_code(ReasonCode::UnsupportedProtocolVersion) == false,
        server_disconnect_code(ReasonCode::ClientIdentifierNotValid) == false,
        server_disconnect_code(ReasonCode::BadUserNameOrPassword) == false,
        server_disconnect_code(ReasonCode::NotAuthorized) == true,
        server_disconnect_code(ReasonCode::ServerUnavailable) == false,
        server_disconnect_code(ReasonCode::ServerBusy) == true,
        server_disconnect_code(ReasonCode::Banned) == false,
        server_disconnect_code(ReasonCode::ServerShuttingDown) == true,
        server_disconnect_code(ReasonCode::BadAuthenticationMethod) == false,
        server_disconnect_code(ReasonCode::KeepAliveTimeout) == true,
        server_disconnect_code(ReasonCode::SessionTakenOver) == true,
        server_disconnect_code(ReasonCode::TopicFilterInvalid) == true,
        server_disconnect_code(ReasonCode::TopicNameInvalid) == true,
        server_disconnect_code(ReasonCode::PacketIdentifierInUse) == false,
        server_disconnect_code(ReasonCode::ReceiveMaximumExceeded) == true,
        server_disconnect_code(ReasonCode::TopicAliasInvalid) == true,
        server_disconnect_code(ReasonCode::PacketTooLarge) == true,
        server_disconnect_code(ReasonCode::MessageRateTooHigh) == true,
        server_disconnect_code(ReasonCode::QuotaExceeded) == true,
        server_disconnect_code(ReasonCode::AdministrativeAction) == true,
        server_disconnect_code(ReasonCode::PayloadFormatInvalid) == true,
        server_disconnect_code(ReasonCode::RetainNotSupported) == true,
        server_disconnect_code(ReasonCode::QoSNotSupported) == true,
        server_disconnect_code(ReasonCode::UseAnotherServer) == true,
        server_disconnect_code(ReasonCode::ServerMoved) == true,
        server_disconnect_code(ReasonCode::SharedSubscriptionsNotSupported) == true,
        server_disconnect_code(ReasonCode::ConnectionRateExceeded) == true,
        server_disconnect_code(ReasonCode::MaximumConnectTime) == true,
        server_disconnect_code(ReasonCode::SubscriptionIdentifiersNotSupported) == true,
        server_disconnect_code(ReasonCode::WildcardSubscriptionsNotSupported) == true,
{
}

/// The codes a client may close a connection with, code by code: Normal Disconnection,
/// Disconnect With Will Message and the errors of a DISCONNECT that a client may send.
pub proof fn lemma_client_disconnect_codes()
    ensures
        client_disconnect_code(ReasonCode::Success) == false,
        client_disconnect_code(ReasonCode::NormalDisconnection) == true,
        client_disconnect_code(ReasonCode::GrantedQoS0) == false,
        client_disconnect_code(ReasonCode::GrantedQoS1) == false,
        client_disconnect_code(ReasonCode::GrantedQoS2) == false,
        client_disconnect_code(ReasonCode::DisconnectWithWillMessage) == true,
        client_disconnect_code(ReasonCode::NoMatchingSubscribers) == false,
        client_disconnect_code(ReasonCode::NoSubscriptionExisted) == false,
        client_disconnect_code(ReasonCode::ContinueAuthentication) == false,
        client_disconnect_code(ReasonCode::ReAuthenticate) == false,
        client_disconnect_code(ReasonCode::UnspecifiedError) == true,
        client_disconnect_code(ReasonCode::MalformedPacket) == true,
        client_disconnect_code(ReasonCode::ProtocolError) == true,
        client_disconnect_code(ReasonCode::ImplementationSpecificError) == true,
        client_disconnect_code(ReasonCode::UnsupportedProtocolVersion) == false,
        client_disconnect_code(ReasonCode::ClientIdentifierNotValid) == false,
        client_disconnect_code(ReasonCode::BadUserNameOrPassword) == false,
        client_disconnect_code(ReasonCode::NotAuthorized) == false,
        client_disconnect_code(ReasonCode::ServerUnavailable) == false,
        client_disconnect_code(ReasonCode::ServerBusy) == false,
        client_disconnect_code(ReasonCode::Banned) == false,
        client_disconnect_code(ReasonCode::ServerShuttingDown) == false,
        client_disconnect_code(ReasonCode::BadAuthenticationMethod) == false,
        client_disconnect_code(ReasonCode::KeepAliveTimeout) == false,
        client_disconnect_code(ReasonCode::SessionTakenOver) == false,
        client_disconnect_code(ReasonCode::TopicFilterInvalid) == false,
        client_disconnect_code(ReasonCode::TopicNameInvalid) == true,
        client_disconnect_code(ReasonCode::PacketIdentifierInUse) == false,
        client_disconnect_code(ReasonCode::ReceiveMaximumExceeded) == true,
        client_disconnect_code(ReasonCode::TopicAliasInvalid) == true,
        client_disconnect_code(ReasonCode::PacketTooLarge) == true,
        client_disconnect_code(ReasonCode::MessageRateTooHigh) == true,
        client_disconnect_code(ReasonCode::QuotaExceeded) == true,
        client_disconnect_code(ReasonCode::AdministrativeAction) == true,
        client_disconnect_code(ReasonCode::PayloadFormatInvalid) == true,
        client_disconnect_code(ReasonCode::RetainNotSupported) == false,
        client_disconnect_code(ReasonCode::QoSNotSupported) == false,
        client_disconnect_code(ReasonCode::UseAnotherServer) == false,
        client_disconnect_code(ReasonCode::ServerMoved) == false,
        client_disconnect_code(ReasonCode::SharedSubscriptionsNotSupported) == false,
        client_disconnect_code(ReasonCode::ConnectionRateExceeded) == false,
        client_disconnect_code(ReasonCode::MaximumConnectTime) == false,
        client_disconnect_code(ReasonCode::SubscriptionIdentifiersNotSupported) == false,
        client_disconnect_code(ReasonCode::WildcardSubscriptionsNotSupported) == false,
{
}

/// A client closes a connection only with a code a server may also use, but for Disconnect
/// With Will Message, which only a client sends.
pub proof fn lemma_client_codes_are_server_codes(c: ReasonCode)
    ensures
        client_disconnect_code(c) && c != ReasonCode::DisconnectWithWillMessage ==> server_disconnect_code(c),
        !server_disconnect_code(ReasonCode::DisconnectWithWillMessage),
{
}

/// The text of each reason code, as it follows the value and the dash.
pub proof fn lemma_reason_code_labels()
    ensures
        reason_code_label(ReasonCode::Success) == "Success"@,
        reason_code_label(ReasonCode::NormalDisconnection) == "Normal Disconnection"@,
        reason_code_label(ReasonCode::GrantedQoS0) == "Granted QoS 0"@,
        reason_code_label(ReasonCode::GrantedQoS1) == "Granted QoS 1"@,
        reason_code_label(ReasonCode::GrantedQoS2) == "Granted QoS 2"@,
        reason_code_label(ReasonCode::DisconnectWithWillMessage) == "Disconnect With Will Message"@,
        reason_code_label(ReasonCode::NoMatchingSubscribers) == "No Matching Subscribers"@,
        reason_code_label(ReasonCode::NoSubscriptionExisted) == "No Subscription Existed"@,
        reason_code_label(ReasonCode::ContinueAuthentication) == "Continue Authentication"@,
        reason_code_label(ReasonCode::ReAuthenticate) == "Re-authenticate"@,
        reason_code_label(ReasonCode::UnspecifiedError) == "Unspecified Error"@,
        reason_code_label(ReasonCode::MalformedPacket) == "Malformed Packet"@,
        reason_code_label(ReasonCode::ProtocolError) == "Protocol Error"@,
        reason_code_label(ReasonCode::ImplementationSpecificError) == "Implementation Specific Error"@,
        reason_code_label(ReasonCode::UnsupportedProtocolVersion) == "Unsupported Protocol Version"@,
        reason_code_label(ReasonCode::ClientIdentifierNotValid) == "Client Identifier not valid"@,
        reason_code_label(ReasonCode::BadUserNameOrPassword) == "Bad User Name or Password"@,
        reason_code_label(ReasonCode::NotAuthorized) == "Not authorized"@,
        reason_code_label(ReasonCode::ServerUnavailable) == "Server unavailable"@,
        reason_code_label(ReasonCode::ServerBusy) == "Server busy"@,
        reason_code_label(ReasonCode::Banned) == "Banned"@,
        reason_code_label(ReasonCode::ServerShuttingDown) == "Server shutting down"@,
        reason_code_label(ReasonCode::BadAuthenticationMethod) == "Bad authentication method"@,
        reason_code_label(ReasonCode::KeepAliveTimeout) == "Keep alive timeout"@,
        reason_code_label(ReasonCode::SessionTakenOver) == "Session taken over"@,
        reason_code_label(ReasonCode::TopicFilterInvalid) == "Topic filter invalid"@,
        reason_code_label(ReasonCode::TopicNameInvalid) == "Topic name invalid"@,
        reason_code_label(ReasonCode::PacketIdentifierInUse) == "Packet identifier in use"@,
        reason_code_label(ReasonCode::ReceiveMaximumExceeded) == "Receive maximum exceeded"@,
        reason_code_label(ReasonCode::TopicAliasInvalid) == "Topic alias invalid"@,
        reason_code_label(ReasonCode::PacketTooLarge) == "Packet too large"@,
        reason_code_label(ReasonCode::MessageRateTooHigh) == "Message rate too high"@,
        reason_code_label(ReasonCode::QuotaExceeded) == "Quota exceeded"@,
        reason_code_label(ReasonCode::AdministrativeAction) == "Administrative action"@,
        reason_code_label(ReasonCode::PayloadFormatInvalid) == "Payload format invalid"@,
        reason_code_label(ReasonCode::RetainNotSupported) == "Retain not supported"@,
        reason_code_label(ReasonCode::QoSNotSupported) == "QoS not supported"@,
        reason_code_label(ReasonCode::UseAnotherServer) == "Use another server"@,
        reason_code_label(ReasonCode::ServerMoved) == "Server moved"@,
        reason_code_label(ReasonCode::SharedSubscriptionsNotSupported) == "Shared subscriptions not supported"@,
        reason_code_label(ReasonCode::ConnectionRateExceeded) == "Connection rate exceeded"@,
        reason_code_label(ReasonCode::MaximumConnectTime) == "Maximum connect time"@,
        reason_code_label(ReasonCode::SubscriptionIdentifiersNotSupported) == "Subscription identifiers not supported"@,
        reason_code_label(ReasonCode::WildcardSubscriptionsNotSupported) == "Wildcard subscriptions not supported"@,
{
}

} // verus!
