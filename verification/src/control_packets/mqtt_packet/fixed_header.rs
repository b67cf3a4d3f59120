use vstd::prelude::*;

use crate::common::data_types::{
    read_byte, variable_byte_integer_decode, variable_byte_integer_encode, MqttError,
};
use crate::common::data_types;
use crate::control_packets::mqtt_packet::packet::PacketType;

verus! {

// Control packet types (the high four bits of the first byte).
pub const CONNECT_PACKET: u8 = 0x10;
pub const CONNACK_PACKET: u8 = 0x20;
pub const PUBLISH_PACKET: u8 = 0x30;
pub const PUBACK_PACKET: u8 = 0x40;
pub const SUBSCRIBE_PACKET: u8 = 0x80;
pub const SUBACK_PACKET: u8 = 0x90;
pub const UNSUBSCRIBE_PACKET: u8 = 0xA0;
pub const UNSUBACK_PACKET: u8 = 0xB0;
pub const PINGREQ_PACKET: u8 = 0xC0;
pub const PINGRESP_PACKET: u8 = 0xD0;
pub const DISCONNECT_PACKET: u8 = 0xE0;
pub const AUTH_PACKET: u8 = 0xF0;

/// The fixed header of a packet: the type-and-flags byte and the remaining length, which is
/// written as a Variable Byte Integer.
pub struct PacketFixedHeader {
    pub packet_type: u8,
    pub remaining_length: u16,
}

/// SUBSCRIBE and UNSUBSCRIBE carry the reserved flags `0010`; other types are kept.
pub open spec fn header_type(t: u8) -> u8 {
    if t == UNSUBSCRIBE_PACKET || t == SUBSCRIBE_PACKET {
        t | 2
    } else {
        t
    }
}

/// The bytes of a fixed header: the type byte, then the remaining length as a Variable Byte
/// Integer.
pub open spec fn fixed_header_bytes(packet_type: u8, remaining_length: u16) -> Seq<u8> {
    seq![packet_type] + data_types::vbi_bytes(remaining_length as nat)
}

/// Reading a fixed header from a stream: the type byte (with the reserved flags that
/// [`PacketFixedHeader::new`] adds), then the remaining length as a Variable Byte Integer,
/// which must not exceed 65535.
pub open spec fn fixed_header_read(s: Seq<u8>) -> (Result<(u8, u16), MqttError>, Seq<u8>) {
    let (t, s1) = data_types::read_byte_spec(s);
    match t {
        Err(e) => (Err(e), s1),
        Ok(b) => {
            let (l, k) = data_types::vbi_read(s1, 0, 0, 1);
            match l {
                Err(e) => (Err(e), s1.skip(k)),
                Ok(n) => if n <= u16::MAX {
                    (Ok((header_type(b), n as u16)), s1.skip(k))
                } else {
                    (Err(MqttError::InvalidRemainingLength), s1.skip(k))
                },
            }
        },
    }
}

/// The kind of packet a type (the high four bits of the first byte) announces.
pub open spec fn packet_type_of(t: u8) -> PacketType {
    if t == CONNECT_PACKET {
        PacketType::ConnectType
    } else if t == CONNACK_PACKET {
        PacketType::ConnackType
    } else if t == PUBLISH_PACKET {
        PacketType::PublishType
    } else if t == PUBACK_PACKET {
        PacketType::PubackType
    } else if t == SUBSCRIBE_PACKET {
        PacketType::SubscribeType
    } else if t == SUBACK_PACKET {
        PacketType::SubackType
    } else if t == UNSUBSCRIBE_PACKET {
        PacketType::Unsubscribe
    } else if t == UNSUBACK_PACKET {
        PacketType::Unsuback
    } else if t == PINGREQ_PACKET {
        PacketType::PingReqType
    } else if t == PINGRESP_PACKET {
        PacketType::PingRespType
    } else if t == DISCONNECT_PACKET {
        PacketType::DisconnectType
    } else if t == AUTH_PACKET {
        PacketType::AuthType
    } else {
        PacketType::Unknow
    }
}

impl PacketFixedHeader {
    /// A fixed header; SUBSCRIBE and UNSUBSCRIBE get their reserved flags `0010`.
    pub fn new(packet_type_header: u8, remaining_length: u16) -> (res: Self)
        ensures
            res.packet_type == header_type(packet_type_header),
            res.remaining_length == remaining_length,
    {
        let mut packet_type = packet_type_header;
        if packet_type == UNSUBSCRIBE_PACKET || packet_type == SUBSCRIBE_PACKET {
            assert(1u8 << 1u8 == 2) by (bit_vector);
            packet_type |= 1 << 1;
        }
        PacketFixedHeader { packet_type, remaining_length }
    }

    /// The bytes of the header.
    pub fn as_bytes(&self) -> (res: Vec<u8>)
        ensures
            res@ == fixed_header_bytes(self.packet_type, self.remaining_length),
    {
        let mut bytes: Vec<u8> = Vec::new();
        bytes.push(self.packet_type);
        variable_byte_integer_encode(&mut bytes, self.remaining_length as u32);
        assert(bytes@ =~= fixed_header_bytes(self.packet_type, self.remaining_length));
        bytes
    }

    /// Reads a fixed header from a stream.
    pub fn read_from(stream: &mut &[u8]) -> (res: Result<Self, MqttError>)
        ensures
            ({
                let (r, rest) = fixed_header_read(old(stream)@);
                &&& final(stream)@ == rest
                &&& match res {
                    Ok(h) => r == Ok::<(u8, u16), MqttError>((h.packet_type, h.remaining_length)),
                    Err(e) => r == Err::<(u8, u16), MqttError>(e),
                }
            }),
    {
        let packet_type = read_byte(stream)?;
        let remaining_length = variable_byte_integer_decode(stream)?;
        if remaining_length > 65535 {
            return Err(MqttError::InvalidRemainingLength);
        }
        Ok(PacketFixedHeader::new(packet_type, remaining_length as u16))
    }

    /// The packet type: the high four bits of the first byte.
    pub fn get_packet_type(&self) -> (res: u8)
        ensures
            res == self.packet_type & 0xF0,
    {
        self.packet_type & 0xF0
    }

    /// The kind of packet the header announces, by its type; the reserved type 0 is
    /// unknown.
    pub fn get_package_type(&self) -> (res: PacketType)
        ensures
            res == packet_type_of(self.packet_type & 0xF0),
    {
        let t = self.get_packet_type();
        if t == CONNECT_PACKET {
            PacketType::ConnectType
        } else if t == CONNACK_PACKET {
            PacketType::ConnackType
        } else if t == PUBLISH_PACKET {
            PacketType::PublishType
        } else if t == PUBACK_PACKET {
            PacketType::PubackType
        } else if t == SUBSCRIBE_PACKET {
            PacketType::SubscribeType
        } else if t == SUBACK_PACKET {
            PacketType::SubackType
        } else if t == UNSUBSCRIBE_PACKET {
            PacketType::Unsubscribe
        } else if t == UNSUBACK_PACKET {
            PacketType::Unsuback
        } else if t == PINGREQ_PACKET {
            PacketType::PingReqType
        } else if t == PINGRESP_PACKET {
            PacketType::PingRespType
        } else if t == DISCONNECT_PACKET {
            PacketType::DisconnectType
        } else if t == AUTH_PACKET {
            PacketType::AuthType
        } else {
            PacketType::Unknow
        }
    }

    /// SUBSCRIBE and UNSUBSCRIBE headers carry the flags `0010` in their low four bits.
    pub fn verify_reserved_bits_for_subscribe_packets(&self) -> (res: bool)
        ensures
            res == (self.packet_type & 0x0F == 2),
    {
        self.packet_type & 0x0F == 2
    }
}

/// Reading back the bytes of a fixed header gives its type (with the reserved flags that
/// [`PacketFixedHeader::new`] adds) and its remaining length.
#[verifier::spinoff_prover]
#[verifier::rlimit(30)]
pub proof fn lemma_fixed_header_roundtrip(packet_type: u8, remaining_length: u16, rest: Seq<u8>)
    ensures
        fixed_header_read(fixed_header_bytes(packet_type, remaining_length) + rest) == (
            Ok::<(u8, u16), MqttError>((header_type(packet_type), remaining_length)),
            rest,
        ),
{
    let s = fixed_header_bytes(packet_type, remaining_length) + rest;
    let e = data_types::vbi_bytes(remaining_length as nat);
    assert(s.skip(1) =~= e + rest);
    data_types::lemma_vbi_decode_roundtrip(remaining_length as u32, rest);
    assert((e + rest).skip(e.len() as int) =~= rest);
}

/// Adding the reserved flags twice is adding them once.
pub proof fn lemma_header_type_stable(t: u8)
    ensures
        header_type(header_type(t)) == header_type(t),
{
    if t == UNSUBSCRIBE_PACKET || t == SUBSCRIBE_PACKET {
        assert((t | 2u8) != 0xA0u8 && (t | 2u8) != 0x80u8) by (bit_vector)
            requires
                t == 0xA0u8 || t == 0x80u8,
        ;
    }
}

/// The type of a header built for a packet type is that packet type, once the flags are
/// masked off; any low flags given with it are kept.
pub proof fn lemma_header_type(packet_type: u8, flags: u8)
    requires
        packet_type & 0x0F == 0,
        flags < 16,
    ensures
        header_type(packet_type | flags) & 0xF0 == packet_type,
{
    assert(packet_type & 0x0F == 0 && flags < 16 ==> (packet_type | flags) & 0xF0 == packet_type)
        by (bit_vector);
    assert(flags < 16 ==> ((packet_type | flags) | 2) & 0xF0 == (packet_type | flags) & 0xF0)
        by (bit_vector);
}

/// The MQTT 5 control packet types, by the high four bits of the first byte: CONNECT 1,
/// CONNACK 2, PUBLISH 3, PUBACK 4, SUBSCRIBE 8, SUBACK 9, UNSUBSCRIBE 10, UNSUBACK 11,
/// PINGREQ 12, PINGRESP 13, DISCONNECT 14 and AUTH 15; the other values name no packet
/// this library reads.
pub proof fn lemma_packet_type_values(t: u8)
    ensures
        packet_type_of(0x10u8) == PacketType::ConnectType,
        packet_type_of(0x20u8) == PacketType::ConnackType,
        packet_type_of(0x30u8) == PacketType::PublishType,
        packet_type_of(0x40u8) == PacketType::PubackType,
        packet_type_of(0x80u8) == PacketType::SubscribeType,
        packet_type_of(0x90u8) == PacketType::SubackType,
        packet_type_of(0xA0u8) == PacketType::Unsubscribe,
        packet_type_of(0xB0u8) == PacketType::Unsuback,
        packet_type_of(0xC0u8) == PacketType::PingReqType,
        packet_type_of(0xD0u8) == PacketType::PingRespType,
        packet_type_of(0xE0u8) == PacketType::DisconnectType,
        packet_type_of(0xF0u8) == PacketType::AuthType,
        t != 0x10u8 && t != 0x20u8 && t != 0x30u8 && t != 0x40u8 && t != 0x80u8 && t != 0x90u8
            && t != 0xA0u8 && t != 0xB0u8 && t != 0xC0u8 && t != 0xD0u8 && t != 0xE0u8 && t != 0xF0u8
            ==> packet_type_of(t) == PacketType::Unknow,
        header_type(0x80u8) == 0x82u8,
        header_type(0xA0u8) == 0xA2u8,
{
    lemma_type_byte_constants();
}

/// The first bytes of the packets this library writes, with their flags masked off.
pub(crate) proof fn lemma_type_byte_constants()
    ensures
        0x10u8 & 0xF0u8 == 0x10u8,
        0x20u8 & 0xF0u8 == 0x20u8,
        0x40u8 & 0xF0u8 == 0x40u8,
        0x82u8 & 0xF0u8 == 0x80u8,
        0x90u8 & 0xF0u8 == 0x90u8,
        0xA2u8 & 0xF0u8 == 0xA0u8,
        0xB0u8 & 0xF0u8 == 0xB0u8,
        0xE0u8 & 0xF0u8 == 0xE0u8,
        0xF0u8 & 0xF0u8 == 0xF0u8,
        0x80u8 | 2u8 == 0x82u8,
        0xA0u8 | 2u8 == 0xA2u8,
{
    assert(0x10u8 & 0xF0u8 == 0x10u8 && 0x20u8 & 0xF0u8 == 0x20u8 && 0x40u8 & 0xF0u8 == 0x40u8 && 0x82u8 & 0xF0u8 == 0x80u8 && 0x90u8 & 0xF0u8 == 0x90u8 && 0xA2u8 & 0xF0u8 == 0xA0u8 && 0xB0u8 & 0xF0u8 == 0xB0u8 && 0xE0u8 & 0xF0u8 == 0xE0u8 && 0xF0u8 & 0xF0u8 == 0xF0u8 && 0x80u8 | 2u8 == 0x82u8 && 0xA0u8 | 2u8 == 0xA2u8) by (bit_vector);
}

} // verus!
