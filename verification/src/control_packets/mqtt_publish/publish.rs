use vstd::prelude::*;

use crate::common::data_types::{take_bytes, MqttError};
use crate::common::data_types;
use crate::common::flags::flags_handler;
use crate::control_packets::mqtt_packet::fixed_header::{PacketFixedHeader, PUBLISH_PACKET};
use crate::control_packets::mqtt_packet::fixed_header;
use crate::control_packets::mqtt_packet::packet_property::append_bytes;
use crate::control_packets::mqtt_publish::publish_properties::{
    PublishProperties, PublishPropertiesView,
};
use crate::control_packets::mqtt_publish::publish_properties;

verus! {

/// A PUBLISH packet: the flags of its fixed header and its variable header and payload.
pub struct Publish {
    pub fixed_header_flags: u8,
    pub properties: PublishProperties,
}

/// The flags of a PUBLISH fixed header: DUP in bit 3, the QoS level in bits 2 and 1, RETAIN
/// in bit 0 (bits shifted past the byte are dropped).
pub open spec fn publish_flags(dup_flag: u8, qos_level: u8, retain: u8) -> u8 {
    (dup_flag << 3u8) | (qos_level << 1u8) | retain
}

/// The bytes of a PUBLISH packet: the fixed header with the type and the flags, then the
/// variable header and payload.
pub open spec fn publish_bytes(flags: u8, v: PublishPropertiesView) -> Seq<u8> {
    fixed_header::fixed_header_bytes(
        fixed_header::header_type(PUBLISH_PACKET | flags),
        publish_properties::publish_properties_bytes(v).len() as u16,
    ) + publish_properties::publish_properties_bytes(v)
}

/// Reading the rest of a PUBLISH packet of `remaining_length` bytes from a stream.
pub open spec fn publish_read(s: Seq<u8>, remaining_length: u16) -> (Result<PublishPropertiesView, MqttError>, Seq<u8>) {
    let (b, s1) = data_types::read_bytes_spec(s, remaining_length as int);
    match b {
        Err(e) => (Err(e), s1),
        Ok(body) => (publish_properties::publish_properties_read(body).0, s1),
    }
}

/// Reading the rest of the packet from this stream does not hit a decoding panic.
pub open spec fn publish_read_safe(s: Seq<u8>, remaining_length: u16) -> bool {
    remaining_length <= s.len() ==> publish_properties::publish_properties_safe(
        s.take(remaining_length as int),
    )
}

/// The packet can be written: its variable header and payload can, and their length fits
/// in the two-byte remaining length.
pub open spec fn publish_fits(v: PublishPropertiesView) -> bool {
    &&& publish_properties::publish_properties_fit(v)
    &&& publish_properties::publish_properties_bytes(v).len() <= u16::MAX
}

/// The flags of a PUBLISH header carry DUP in bit 3, the QoS level in bits 2 and 1 and
/// RETAIN in bit 0: each reads back, through the flag getters, as the value it was built
/// from, and no bit above the low four is set.
pub proof fn lemma_publish_flags_read_back(dup_flag: u8, qos_level: u8, retain: u8)
    requires
        dup_flag <= 1,
        qos_level <= 3,
        retain <= 1,
    ensures
        flags_handler::flag_bits(publish_flags(dup_flag, qos_level, retain), 3, 1) == dup_flag,
        flags_handler::flag_bits(publish_flags(dup_flag, qos_level, retain), 1, 2) == qos_level,
        flags_handler::flag_bits(publish_flags(dup_flag, qos_level, retain), 0, 1) == retain,
        publish_flags(dup_flag, qos_level, retain) < 16,
{
    let f = publish_flags(dup_flag, qos_level, retain);
    assert(f == (dup_flag << 3u8) | (qos_level << 1u8) | retain);
    assert(dup_flag <= 1 && qos_level <= 3 && retain <= 1 ==> {
        &&& ((((dup_flag << 3u8) | (qos_level << 1u8) | retain) >> 3u8) & 1u8) == dup_flag
        &&& ((((dup_flag << 3u8) | (qos_level << 1u8) | retain) >> 1u8) & 3u8) == qos_level
        &&& ((((dup_flag << 3u8) | (qos_level << 1u8) | retain) >> 0u8) & 1u8) == retain
        &&& ((dup_flag << 3u8) | (qos_level << 1u8) | retain) < 16u8
    }) by (bit_vector);
}

impl Publish {
    /// A PUBLISH packet with the given DUP flag, QoS level and RETAIN flag.
    pub fn new(dup_flag: u8, qos_level: u8, retain: u8, properties: PublishProperties) -> (res: Self)
        ensures
            res.fixed_header_flags == publish_flags(dup_flag, qos_level, retain),
            res.properties == properties,
            dup_flag <= 1 && qos_level <= 3 && retain <= 1 ==> {
                &&& flags_handler::flag_bits(res.fixed_header_flags, 3, 1) == dup_flag
                &&& flags_handler::flag_bits(res.fixed_header_flags, 1, 2) == qos_level
                &&& flags_handler::flag_bits(res.fixed_header_flags, 0, 1) == retain
                &&& res.fixed_header_flags < 16
            },
    {
        let mut fixed_header_flags: u8 = 0;
        fixed_header_flags |= dup_flag << 3;
        fixed_header_flags |= qos_level << 1;
        fixed_header_flags |= retain;
        assert(((0u8 | (dup_flag << 3u8)) | (qos_level << 1u8)) | retain == (dup_flag << 3u8) | (
        qos_level << 1u8) | retain) by (bit_vector);
        proof {
            if dup_flag <= 1 && qos_level <= 3 && retain <= 1 {
                lemma_publish_flags_read_back(dup_flag, qos_level, retain);
            }
        }
        Publish { fixed_header_flags, properties }
    }

    /// Reads the rest of a PUBLISH packet whose fixed header announced `remaining_length`
    /// bytes; the flags are not kept.
    pub fn read_from(stream: &mut &[u8], remaining_length: u16) -> (res: Result<Self, MqttError>)
        requires
            publish_read_safe(old(stream)@, remaining_length),
        ensures
            ({
                let (r, rest) = publish_read(old(stream)@, remaining_length);
                &&& final(stream)@ == rest
                &&& match res {
                    Ok(p) => r == Ok::<PublishPropertiesView, MqttError>(p.properties@)
                        && p.fixed_header_flags == 0,
                    Err(e) => r == Err::<PublishPropertiesView, MqttError>(e),
                }
            }),
    {
        let aux_buffer = take_bytes(stream, remaining_length as usize)?;
        let mut buffer = aux_buffer;
        let properties = PublishProperties::read_from(&mut buffer)?;
        Ok(Publish { fixed_header_flags: 0, properties })
    }

    /// Writes the packet to a stream.
    pub fn write_to(&self, stream: &mut Vec<u8>) -> (res: Result<(), MqttError>)
        requires
            publish_fits(self.properties@),
        ensures
            res is Ok,
            final(stream)@ == old(stream)@ + publish_bytes(self.fixed_header_flags, self.properties@),
    {
        let remaining_length = self.properties.size_of();
        let fixed_header_content = PUBLISH_PACKET | self.fixed_header_flags;
        let fixed_header = PacketFixedHeader::new(fixed_header_content, remaining_length as u16);
        let fixed_header_bytes = fixed_header.as_bytes();
        append_bytes(stream, fixed_header_bytes.as_slice());
        let properties = self.properties.as_bytes()?;
        append_bytes(stream, properties.as_slice());
        assert(final(stream)@ =~= old(stream)@ + publish_bytes(self.fixed_header_flags, self.properties@));
        Ok(())
    }
}

/// A PUBLISH packet that can be written reads back as written: the fixed header gives the
/// type with the flags and the length of the rest, and the rest gives the same variable
/// header and payload.
#[verifier::spinoff_prover]
#[verifier::rlimit(30)]
pub proof fn lemma_publish_roundtrip(flags: u8, v: PublishPropertiesView, rest: Seq<u8>)
    requires
        publish_fits(v),
    ensures
        ({
            let body = publish_properties::publish_properties_bytes(v);
            let (h, s1) = fixed_header::fixed_header_read(publish_bytes(flags, v) + rest);
            &&& h == Ok::<(u8, u16), MqttError>((fixed_header::header_type(PUBLISH_PACKET | flags), body.len() as u16))
            &&& s1 == body + rest
            &&& publish_read_safe(s1, body.len() as u16)
            &&& publish_read(s1, body.len() as u16) == (Ok::<PublishPropertiesView, MqttError>(v), rest)
        }),
{
    let body = publish_properties::publish_properties_bytes(v);
    let n = body.len() as u16;
    let t = fixed_header::header_type(PUBLISH_PACKET | flags);
    assert(publish_bytes(flags, v) + rest =~= fixed_header::fixed_header_bytes(t, n) + (body + rest));
    fixed_header::lemma_fixed_header_roundtrip(t, n, body + rest);
    fixed_header::lemma_header_type_stable(PUBLISH_PACKET | flags);
    assert((body + rest).take(n as int) =~= body);
    assert((body + rest).skip(n as int) =~= rest);
    publish_properties::lemma_publish_properties_roundtrip(v, Seq::empty());
    assert(body + Seq::<u8>::empty() =~= body);
}

/// A PUBLISH packet starts with type 3 in the high four bits and its flags in the low four;
/// read back, that byte names a PUBLISH packet.
pub proof fn lemma_publish_first_byte(flags: u8, v: PublishPropertiesView)
    requires
        flags < 16,
    ensures
        publish_bytes(flags, v)[0] == 0x30u8 | flags,
        publish_bytes(flags, v)[0] & 0x0Fu8 == flags,
        fixed_header::packet_type_of(publish_bytes(flags, v)[0] & 0xF0u8) == crate::control_packets::mqtt_packet::packet::PacketType::PublishType,
{
    assert(flags < 16 ==> (0x30u8 | flags) & 0xF0u8 == 0x30u8) by (bit_vector);
    assert(flags < 16 ==> (0x30u8 | flags) & 0x0Fu8 == flags) by (bit_vector);
    assert(flags < 16 ==> (0x30u8 | flags) != 0xA0u8 && (0x30u8 | flags) != 0x80u8) by (bit_vector);
    assert(fixed_header::header_type(PUBLISH_PACKET | flags) == 0x30u8 | flags);
}

} // verus!
