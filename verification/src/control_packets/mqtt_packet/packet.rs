use vstd::prelude::*;

use crate::common::data_types::MqttError;
use crate::control_packets::mqtt_packet::fixed_header::{PINGREQ_PACKET, PINGRESP_PACKET};
use crate::control_packets::mqtt_packet::fixed_header;
use crate::control_packets::mqtt_auth::auth::Auth;
use crate::control_packets::mqtt_auth::auth;
use crate::control_packets::mqtt_auth::auth_properties::AuthPropertiesView;
use crate::control_packets::mqtt_connack::connack::Connack;
use crate::control_packets::mqtt_connack::connack;
use crate::control_packets::mqtt_connack::connack_properties::ConnackPropertiesView;
use crate::control_packets::mqtt_connect::connect::Connect;
use crate::control_packets::mqtt_connect::connect;
use crate::control_packets::mqtt_connect::connect_properties::ConnectPropertiesView;
use crate::control_packets::mqtt_connect::payload::ConnectPayloadView;
use crate::control_packets::mqtt_disconnect::disconnect::Disconnect;
use crate::control_packets::mqtt_disconnect::disconnect;
use crate::control_packets::mqtt_disconnect::disconnect_properties::DisconnectPropertiesView;
use crate::control_packets::mqtt_pingreq::pingreq::PingReq;
use crate::control_packets::mqtt_pingresp::pingresp::PingResp;
use crate::control_packets::mqtt_puback::puback::Puback;
use crate::control_packets::mqtt_puback::puback;
use crate::control_packets::mqtt_puback::puback_properties::PubackPropertiesView;
use crate::control_packets::mqtt_publish::publish::Publish;
use crate::control_packets::mqtt_publish::publish;
use crate::control_packets::mqtt_publish::publish_properties::PublishPropertiesView;
use crate::control_packets::mqtt_suback::suback::Suback;
use crate::control_packets::mqtt_suback::suback;
use crate::control_packets::mqtt_suback::suback_properties::SubackPropertiesView;
use crate::control_packets::mqtt_subscribe::subscribe::Subscribe;
use crate::control_packets::mqtt_subscribe::subscribe;
use crate::control_packets::mqtt_subscribe::subscribe_properties::SubscribePropertiesView;
use crate::control_packets::mqtt_unsuback::unsuback::Unsuback;
use crate::control_packets::mqtt_unsuback::unsuback;
use crate::control_packets::mqtt_unsuback::unsuback_properties::UnsubackPropertiesView;
use crate::control_packets::mqtt_unsubscribe::unsubscribe::Unsubscribe;
use crate::control_packets::mqtt_unsubscribe::unsubscribe;
use crate::control_packets::mqtt_unsubscribe::unsubscribe_properties::UnsubscribePropertiesView;

verus! {

/// The kinds of control packets.
#[derive(Debug, Clone, Copy, PartialEq, Eq, Structural)]
pub enum PacketType {
    ConnectType,
    ConnackType,
    PublishType,
    PubackType,
    SubscribeType,
    SubackType,
    Unsubscribe,
    Unsuback,
    PingReqType,
    PingRespType,
    DisconnectType,
    AuthType,
    Unknow,
}

/// A packet read from a stream, by kind.
pub enum PacketReceived {
    Connect(Box<Connect>),
    Connack(Box<Connack>),
    Publish(Box<Publish>),
    Puback(Box<Puback>),
    Subscribe(Box<Subscribe>),
    Suback(Box<Suback>),
    Unsubscribe(Box<Unsubscribe>),
    Unsuback(Box<Unsuback>),
    PingReq(Box<PingReq>),
    PingResp(Box<PingResp>),
    Disconnect(Box<Disconnect>),
    Auth(Box<Auth>),
    Unknow,
}

/// The value of a packet read from a stream: the values of its variable header and payload.
pub enum PacketView {
    Connect(ConnectPropertiesView, ConnectPayloadView),
    Connack(ConnackPropertiesView),
    Publish(PublishPropertiesView),
    Puback(PubackPropertiesView),
    Subscribe(SubscribePropertiesView),
    Suback(SubackPropertiesView),
    Unsubscribe(UnsubscribePropertiesView),
    Unsuback(UnsubackPropertiesView),
    PingReq,
    PingResp,
    Disconnect(DisconnectPropertiesView),
    Auth(AuthPropertiesView),
    Unknow,
}

/// The value of a packet read from a stream.
pub open spec fn packet_view(p: PacketReceived) -> PacketView {
    match p {
        PacketReceived::Connect(c) => PacketView::Connect(c.properties@, c.payload@),
        PacketReceived::Connack(c) => PacketView::Connack(c.properties@),
        PacketReceived::Publish(c) => PacketView::Publish(c.properties@),
        PacketReceived::Puback(c) => PacketView::Puback(c.properties@),
        PacketReceived::Subscribe(c) => PacketView::Subscribe(c.properties@),
        PacketReceived::Suback(c) => PacketView::Suback(c.properties@),
        PacketReceived::Unsubscribe(c) => PacketView::Unsubscribe(c.properties@),
        PacketReceived::Unsuback(c) => PacketView::Unsuback(c.properties@),
        PacketReceived::PingReq(_) => PacketView::PingReq,
        PacketReceived::PingResp(_) => PacketView::PingResp,
        PacketReceived::Disconnect(c) => PacketView::Disconnect(c.properties@),
        PacketReceived::Auth(c) => PacketView::Auth(c.properties@),
        PacketReceived::Unknow => PacketView::Unknow,
    }
}

pub open spec fn packet_result(r: Result<PacketReceived, MqttError>) -> Result<PacketView, MqttError> {
    match r {
        Ok(p) => Ok(packet_view(p)),
        Err(e) => Err(e),
    }
}

/// Reading the rest of a Connect packet, as a packet value.
#[verifier::opaque]
pub open spec fn received_connect(s: Seq<u8>, remaining_length: u16) -> (Result<PacketView, MqttError>, Seq<u8>) {
    match connect::connect_read(s, remaining_length) {
        (Ok(x), r) => (Ok(PacketView::Connect(x.0, x.1)), r),
        (Err(e), r) => (Err(e), r),
    }
}

/// Reading the rest of a Connack packet, as a packet value.
#[verifier::opaque]
pub open spec fn received_connack(s: Seq<u8>, remaining_length: u16) -> (Result<PacketView, MqttError>, Seq<u8>) {
    match connack::connack_read(s, remaining_length) {
        (Ok(x), r) => (Ok(PacketView::Connack(x)), r),
        (Err(e), r) => (Err(e), r),
    }
}

/// Reading the rest of a Publish packet, as a packet value.
#[verifier::opaque]
pub open spec fn received_publish(s: Seq<u8>, remaining_length: u16) -> (Result<PacketView, MqttError>, Seq<u8>) {
    match publish::publish_read(s, remaining_length) {
        (Ok(x), r) => (Ok(PacketView::Publish(x)), r),
        (Err(e), r) => (Err(e), r),
    }
}

/// Reading the rest of a Puback packet, as a packet value.
#[verifier::opaque]
pub open spec fn received_puback(s: Seq<u8>, remaining_length: u16) -> (Result<PacketView, MqttError>, Seq<u8>) {
    match puback::puback_read(s, remaining_length) {
        (Ok(x), r) => (Ok(PacketView::Puback(x)), r),
        (Err(e), r) => (Err(e), r),
    }
}

/// Reading the rest of a Subscribe packet, as a packet value.
#[verifier::opaque]
pub open spec fn received_subscribe(s: Seq<u8>, remaining_length: u16) -> (Result<PacketView, MqttError>, Seq<u8>) {
    match subscribe::subscribe_read(s, remaining_length) {
        (Ok(x), r) => (Ok(PacketView::Subscribe(x)), r),
        (Err(e), r) => (Err(e), r),
    }
}

/// Reading the rest of a Suback packet, as a packet value.
#[verifier::opaque]
pub open spec fn received_suback(s: Seq<u8>, remaining_length: u16) -> (Result<PacketView, MqttError>, Seq<u8>) {
    match suback::suback_read(s, remaining_length) {
        (Ok(x), r) => (Ok(PacketView::Suback(x)), r),
        (Err(e), r) => (Err(e), r),
    }
}

/// Reading the rest of a Unsubscribe packet, as a packet value.
#[verifier::opaque]
pub open spec fn received_unsubscribe(s: Seq<u8>, remaining_length: u16) -> (Result<PacketView, MqttError>, Seq<u8>) {
    match unsubscribe::unsubscribe_read(s, remaining_length) {
        (Ok(x), r) => (Ok(PacketView::Unsubscribe(x)), r),
        (Err(e), r) => (Err(e), r),
    }
}

/// Reading the rest of a Unsuback packet, as a packet value.
#[verifier::opaque]
pub open spec fn received_unsuback(s: Seq<u8>, remaining_length: u16) -> (Result<PacketView, MqttError>, Seq<u8>) {
    match unsuback::unsuback_read(s, remaining_length) {
        (Ok(x), r) => (Ok(PacketView::Unsuback(x)), r),
        (Err(e), r) => (Err(e), r),
    }
}

/// Reading the rest of a Disconnect packet, as a packet value.
#[verifier::opaque]
pub open spec fn received_disconnect(s: Seq<u8>, remaining_length: u16) -> (Result<PacketView, MqttError>, Seq<u8>) {
    match disconnect::disconnect_read(s, remaining_length) {
        (Ok(x), r) => (Ok(PacketView::Disconnect(x)), r),
        (Err(e), r) => (Err(e), r),
    }
}

/// Reading the rest of a Auth packet, as a packet value.
#[verifier::opaque]
pub open spec fn received_auth(s: Seq<u8>, remaining_length: u16) -> (Result<PacketView, MqttError>, Seq<u8>) {
    match auth::auth_read(s, remaining_length) {
        (Ok(x), r) => (Ok(PacketView::Auth(x)), r),
        (Err(e), r) => (Err(e), r),
    }
}

/// Reading the rest of a packet of a given kind, whose fixed header announced
/// `remaining_length` bytes.
pub open spec fn get_packet_spec(s: Seq<u8>, package_type: PacketType, remaining_length: u16) -> (
    Result<PacketView, MqttError>,
    Seq<u8>,
) {
    match package_type {
        PacketType::ConnectType => received_connect(s, remaining_length),
        PacketType::ConnackType => received_connack(s, remaining_length),
        PacketType::PublishType => received_publish(s, remaining_length),
        PacketType::PubackType => received_puback(s, remaining_length),
        PacketType::SubscribeType => received_subscribe(s, remaining_length),
        PacketType::SubackType => received_suback(s, remaining_length),
        PacketType::Unsubscribe => received_unsubscribe(s, remaining_length),
        PacketType::Unsuback => received_unsuback(s, remaining_length),
        PacketType::DisconnectType => received_disconnect(s, remaining_length),
        PacketType::AuthType => received_auth(s, remaining_length),
        PacketType::PingReqType => if remaining_length == 0 {
            (Ok(PacketView::PingReq), s)
        } else {
            (Err(MqttError::InvalidRemainingLength), s)
        },
        PacketType::PingRespType => if remaining_length == 0 {
            (Ok(PacketView::PingResp), s)
        } else {
            (Err(MqttError::InvalidRemainingLength), s)
        },
        PacketType::Unknow => (Err(MqttError::UnknownPacket), s),
    }
}

/// Reading the rest of a packet of a given kind from this stream does not hit a decoding
/// panic.
pub open spec fn get_packet_safe(s: Seq<u8>, package_type: PacketType, remaining_length: u16) -> bool {
    match package_type {
        PacketType::ConnectType => connect::connect_read_safe(s, remaining_length),
        PacketType::ConnackType => connack::connack_read_safe(s, remaining_length),
        PacketType::PublishType => publish::publish_read_safe(s, remaining_length),
        PacketType::PubackType => puback::puback_read_safe(s, remaining_length),
        PacketType::SubscribeType => subscribe::subscribe_read_safe(s, remaining_length),
        PacketType::SubackType => suback::suback_read_safe(s, remaining_length),
        PacketType::Unsubscribe => unsubscribe::unsubscribe_read_safe(s, remaining_length),
        PacketType::Unsuback => unsuback::unsuback_read_safe(s, remaining_length),
        PacketType::DisconnectType => disconnect::disconnect_read_safe(s, remaining_length),
        PacketType::AuthType => auth::auth_read_safe(s, remaining_length),
        _ => true,
    }
}

/// What every packet offers: it is read from the rest of a stream after its fixed header,
/// written to bytes, and wrapped as a received packet.
pub trait Serialization: Sized {
    /// The kind of packet this type is read as.
    spec fn kind() -> PacketType;

    /// The value of the packet once received.
    spec fn packet_value(&self) -> PacketView;

    /// The packet can be written: its strings and properties fit their length fields.
    spec fn writable(&self) -> bool;

    /// The bytes of the packet.
    spec fn packet_bytes(&self) -> Seq<u8>;

    /// Reads the rest of a packet whose fixed header announced `remaining_length` bytes.
    fn read_from(stream: &mut &[u8], remaining_length: u16) -> (res: Result<Self, MqttError>)
        requires
            get_packet_safe(old(stream)@, Self::kind(), remaining_length),
        ensures
            (match res {
                Ok(p) => Ok(p.packet_value()),
                Err(e) => Err(e),
            }, final(stream)@) == get_packet_spec(old(stream)@, Self::kind(), remaining_length),
    ;

    /// Appends the bytes of the packet.
    fn write_to(&self, stream: &mut Vec<u8>) -> (res: Result<(), MqttError>)
        requires
            self.writable(),
        ensures
            res is Ok,
            final(stream)@ == old(stream)@ + self.packet_bytes(),
    ;

    /// The packet as a received packet.
    fn packed_package(package: Self) -> (res: PacketReceived)
        ensures
            packet_view(res) == package.packet_value(),
    ;
}

impl Serialization for Connect {
    open spec fn kind() -> PacketType {
        PacketType::ConnectType
    }

    open spec fn packet_value(&self) -> PacketView {
        PacketView::Connect(self.properties@, self.payload@)
    }

    open spec fn writable(&self) -> bool {
        connect::connect_fits(self.properties@, self.payload@)
    }

    open spec fn packet_bytes(&self) -> Seq<u8> {
        connect::connect_bytes(self.properties@, self.payload@)
    }

    fn read_from(stream: &mut &[u8], remaining_length: u16) -> (res: Result<Self, MqttError>) {
        proof {
            reveal(received_connect);
        }
        Connect::read_from(stream, remaining_length)
    }

    fn write_to(&self, stream: &mut Vec<u8>) -> (res: Result<(), MqttError>) {
        Connect::write_to(self, stream)
    }

    fn packed_package(package: Self) -> (res: PacketReceived) {
        PacketReceived::Connect(Box::new(package))
    }
}

impl Serialization for Connack {
    open spec fn kind() -> PacketType {
        PacketType::ConnackType
    }

    open spec fn packet_value(&self) -> PacketView {
        PacketView::Connack(self.properties@)
    }

    open spec fn writable(&self) -> bool {
        connack::connack_fits(self.properties@)
    }

    open spec fn packet_bytes(&self) -> Seq<u8> {
        connack::connack_bytes(self.properties@)
    }

    fn read_from(stream: &mut &[u8], remaining_length: u16) -> (res: Result<Self, MqttError>) {
        proof {
            reveal(received_connack);
        }
        Connack::read_from(stream, remaining_length)
    }

    fn write_to(&self, stream: &mut Vec<u8>) -> (res: Result<(), MqttError>) {
        Connack::write_to(self, stream)
    }

    fn packed_package(package: Self) -> (res: PacketReceived) {
        PacketReceived::Connack(Box::new(package))
    }
}

impl Serialization for Publish {
    open spec fn kind() -> PacketType {
        PacketType::PublishType
    }

    open spec fn packet_value(&self) -> PacketView {
        PacketView::Publish(self.properties@)
    }

    open spec fn writable(&self) -> bool {
        publish::publish_fits(self.properties@)
    }

    open spec fn packet_bytes(&self) -> Seq<u8> {
        publish::publish_bytes(self.fixed_header_flags, self.properties@)
    }

    fn read_from(stream: &mut &[u8], remaining_length: u16) -> (res: Result<Self, MqttError>) {
        proof {
            reveal(received_publish);
        }
        Publish::read_from(stream, remaining_length)
    }

    fn write_to(&self, stream: &mut Vec<u8>) -> (res: Result<(), MqttError>) {
        Publish::write_to(self, stream)
    }

    fn packed_package(package: Self) -> (res: PacketReceived) {
        PacketReceived::Publish(Box::new(package))
    }
}

impl Serialization for Puback {
    open spec fn kind() -> PacketType {
        PacketType::PubackType
    }

    open spec fn packet_value(&self) -> PacketView {
        PacketView::Puback(self.properties@)
    }

    open spec fn writable(&self) -> bool {
        puback::puback_fits(self.properties@)
    }

    open spec fn packet_bytes(&self) -> Seq<u8> {
        puback::puback_bytes(self.properties@)
    }

    fn read_from(stream: &mut &[u8], remaining_length: u16) -> (res: Result<Self, MqttError>) {
        proof {
            reveal(received_puback);
        }
        Puback::read_from(stream, remaining_length)
    }

    fn write_to(&self, stream: &mut Vec<u8>) -> (res: Result<(), MqttError>) {
        Puback::write_to(self, stream)
    }

    fn packed_package(package: Self) -> (res: PacketReceived) {
        PacketReceived::Puback(Box::new(package))
    }
}

impl Serialization for Subscribe {
    open spec fn kind() -> PacketType {
        PacketType::SubscribeType
    }

    open spec fn packet_value(&self) -> PacketView {
        PacketView::Subscribe(self.properties@)
    }

    open spec fn writable(&self) -> bool {
        subscribe::subscribe_fits(self.properties@)
    }

    open spec fn packet_bytes(&self) -> Seq<u8> {
        subscribe::subscribe_bytes(self.properties@)
    }

    fn read_from(stream: &mut &[u8], remaining_length: u16) -> (res: Result<Self, MqttError>) {
        proof {
            reveal(received_subscribe);
        }
        Subscribe::read_from(stream, remaining_length)
    }

    fn write_to(&self, stream: &mut Vec<u8>) -> (res: Result<(), MqttError>) {
        Subscribe::write_to(self, stream)
    }

    fn packed_package(package: Self) -> (res: PacketReceived) {
        PacketReceived::Subscribe(Box::new(package))
    }
}

impl Serialization for Suback {
    open spec fn kind() -> PacketType {
        PacketType::SubackType
    }

    open spec fn packet_value(&self) -> PacketView {
        PacketView::Suback(self.properties@)
    }

    open spec fn writable(&self) -> bool {
        suback::suback_fits(self.properties@)
    }

    open spec fn packet_bytes(&self) -> Seq<u8> {
        suback::suback_bytes(self.properties@)
    }

    fn read_from(stream: &mut &[u8], remaining_length: u16) -> (res: Result<Self, MqttError>) {
        proof {
            reveal(received_suback);
        }
        Suback::read_from(stream, remaining_length)
    }

    fn write_to(&self, stream: &mut Vec<u8>) -> (res: Result<(), MqttError>) {
        Suback::write_to(self, stream)
    }

    fn packed_package(package: Self) -> (res: PacketReceived) {
        PacketReceived::Suback(Box::new(package))
    }
}

impl Serialization for Unsubscribe {
    open spec fn kind() -> PacketType {
        PacketType::Unsubscribe
    }

    open spec fn packet_value(&self) -> PacketView {
        PacketView::Unsubscribe(self.properties@)
    }

    open spec fn writable(&self) -> bool {
        unsubscribe::unsubscribe_fits(self.properties@)
    }

    open spec fn packet_bytes(&self) -> Seq<u8> {
        unsubscribe::unsubscribe_bytes(self.properties@)
    }

    fn read_from(stream: &mut &[u8], remaining_length: u16) -> (res: Result<Self, MqttError>) {
        proof {
            reveal(received_unsubscribe);
        }
        Unsubscribe::read_from(stream, remaining_length)
    }

    fn write_to(&self, stream: &mut Vec<u8>) -> (res: Result<(), MqttError>) {
        Unsubscribe::write_to(self, stream)
    }

    fn packed_package(package: Self) -> (res: PacketReceived) {
        PacketReceived::Unsubscribe(Box::new(package))
    }
}

impl Serialization for Unsuback {
    open spec fn kind() -> PacketType {
        PacketType::Unsuback
    }

    open spec fn packet_value(&self) -> PacketView {
        PacketView::Unsuback(self.properties@)
    }

    open spec fn writable(&self) -> bool {
        unsuback::unsuback_fits(self.properties@)
    }

    open spec fn packet_bytes(&self) -> Seq<u8> {
        unsuback::unsuback_bytes(self.properties@)
    }

    fn read_from(stream: &mut &[u8], remaining_length: u16) -> (res: Result<Self, MqttError>) {
        proof {
            reveal(received_unsuback);
        }
        Unsuback::read_from(stream, remaining_length)
    }

    fn write_to(&self, stream: &mut Vec<u8>) -> (res: Result<(), MqttError>) {
        Unsuback::write_to(self, stream)
    }

    fn packed_package(package: Self) -> (res: PacketReceived) {
        PacketReceived::Unsuback(Box::new(package))
    }
}

impl Serialization for PingReq {
    open spec fn kind() -> PacketType {
        PacketType::PingReqType
    }

    open spec fn packet_value(&self) -> PacketView {
        PacketView::PingReq
    }

    open spec fn writable(&self) -> bool {
        true
    }

    open spec fn packet_bytes(&self) -> Seq<u8> {
        fixed_header::fixed_header_bytes(PINGREQ_PACKET, 0)
    }

    fn read_from(stream: &mut &[u8], remaining_length: u16) -> (res: Result<Self, MqttError>) {
        PingReq::read_from(stream, remaining_length)
    }

    fn write_to(&self, stream: &mut Vec<u8>) -> (res: Result<(), MqttError>) {
        PingReq::write_to(self, stream)
    }

    fn packed_package(package: Self) -> (res: PacketReceived) {
        PacketReceived::PingReq(Box::new(package))
    }
}

impl Serialization for PingResp {
    open spec fn kind() -> PacketType {
        PacketType::PingRespType
    }

    open spec fn packet_value(&self) -> PacketView {
        PacketView::PingResp
    }

    open spec fn writable(&self) -> bool {
        true
    }

    open spec fn packet_bytes(&self) -> Seq<u8> {
        fixed_header::fixed_header_bytes(PINGRESP_PACKET, 0)
    }

    fn read_from(stream: &mut &[u8], remaining_length: u16) -> (res: Result<Self, MqttError>) {
        PingResp::read_from(stream, remaining_length)
    }

    fn write_to(&self, stream: &mut Vec<u8>) -> (res: Result<(), MqttError>) {
        PingResp::write_to(self, stream)
    }

    fn packed_package(package: Self) -> (res: PacketReceived) {
        PacketReceived::PingResp(Box::new(package))
    }
}

impl Serialization for Disconnect {
    open spec fn kind() -> PacketType {
        PacketType::DisconnectType
    }

    open spec fn packet_value(&self) -> PacketView {
        PacketView::Disconnect(self.properties@)
    }

    open spec fn writable(&self) -> bool {
        disconnect::disconnect_fits(self.properties@)
    }

    open spec fn packet_bytes(&self) -> Seq<u8> {
        disconnect::disconnect_bytes(self.properties@)
    }

    fn read_from(stream: &mut &[u8], remaining_length: u16) -> (res: Result<Self, MqttError>) {
        proof {
            reveal(received_disconnect);
        }
        Disconnect::read_from(stream, remaining_length)
    }

    fn write_to(&self, stream: &mut Vec<u8>) -> (res: Result<(), MqttError>) {
        Disconnect::write_to(self, stream)
    }

    fn packed_package(package: Self) -> (res: PacketReceived) {
        PacketReceived::Disconnect(Box::new(package))
    }
}

impl Serialization for Auth {
    open spec fn kind() -> PacketType {
        PacketType::AuthType
    }

    open spec fn packet_value(&self) -> PacketView {
        PacketView::Auth(self.properties@)
    }

    open spec fn writable(&self) -> bool {
        auth::auth_fits(self.properties@)
    }

    open spec fn packet_bytes(&self) -> Seq<u8> {
        auth::auth_bytes(self.properties@)
    }

    fn read_from(stream: &mut &[u8], remaining_length: u16) -> (res: Result<Self, MqttError>) {
        proof {
            reveal(received_auth);
        }
        Auth::read_from(stream, remaining_length)
    }

    fn write_to(&self, stream: &mut Vec<u8>) -> (res: Result<(), MqttError>) {
        Auth::write_to(self, stream)
    }

    fn packed_package(package: Self) -> (res: PacketReceived) {
        PacketReceived::Auth(Box::new(package))
    }
}

/// Reads the rest of a packet of type `T` and wraps it as a received packet.
pub fn pack_bytes<T: Serialization>(stream: &mut &[u8], remaining_length: u16) -> (res: Result<PacketReceived, MqttError>)
    requires
        get_packet_safe(old(stream)@, T::kind(), remaining_length),
    ensures
        (packet_result(res), final(stream)@) == get_packet_spec(old(stream)@, T::kind(), remaining_length),
{
    match T::read_from(stream, remaining_length) {
        Ok(package) => Ok(T::packed_package(package)),
        Err(e) => Err(e),
    }
}

/// Reads the rest of a packet of the given kind, whose fixed header announced
/// `remaining_length` bytes; an unknown kind is refused.
pub fn get_packet(stream: &mut &[u8], package_type: PacketType, remaining_length: u16) -> (res: Result<
    PacketReceived,
    MqttError,
>)
    requires
        get_packet_safe(old(stream)@, package_type, remaining_length),
    ensures
        (packet_result(res), final(stream)@) == get_packet_spec(
            old(stream)@,
            package_type,
            remaining_length,
        ),
{
    match package_type {
        PacketType::ConnectType => pack_bytes::<Connect>(stream, remaining_length),
        PacketType::ConnackType => pack_bytes::<Connack>(stream, remaining_length),
        PacketType::PublishType => pack_bytes::<Publish>(stream, remaining_length),
        PacketType::PubackType => pack_bytes::<Puback>(stream, remaining_length),
        PacketType::SubscribeType => pack_bytes::<Subscribe>(stream, remaining_length),
        PacketType::SubackType => pack_bytes::<Suback>(stream, remaining_length),
        PacketType::Unsubscribe => pack_bytes::<Unsubscribe>(stream, remaining_length),
        PacketType::Unsuback => pack_bytes::<Unsuback>(stream, remaining_length),
        PacketType::PingReqType => pack_bytes::<PingReq>(stream, remaining_length),
        PacketType::PingRespType => pack_bytes::<PingResp>(stream, remaining_length),
        PacketType::DisconnectType => pack_bytes::<Disconnect>(stream, remaining_length),
        PacketType::AuthType => pack_bytes::<Auth>(stream, remaining_length),
        PacketType::Unknow => Err(MqttError::UnknownPacket),
    }
}

} // verus!
