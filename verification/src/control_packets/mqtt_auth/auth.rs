use vstd::prelude::*;

use crate::common::data_types::{take_bytes, MqttError};
use crate::common::data_types;
use crate::control_packets::mqtt_auth::auth_properties::{AuthProperties, AuthPropertiesView};
use crate::control_packets::mqtt_auth::auth_properties;
use crate::control_packets::mqtt_packet::fixed_header::{PacketFixedHeader, AUTH_PACKET};
use crate::control_packets::mqtt_packet::fixed_header;
use crate::control_packets::mqtt_packet::packet_property::append_bytes;

verus! {

/// An AUTH packet: the exchange of extended authentication data.
pub struct Auth {
    pub properties: AuthProperties,
}

/// The bytes of a AUTH packet: the fixed header, then the variable header.
pub open spec fn auth_bytes(v: AuthPropertiesView) -> Seq<u8> {
    fixed_header::fixed_header_bytes(
        fixed_header::header_type(AUTH_PACKET),
        auth_properties::auth_properties_bytes(v).len() as u16,
    ) + auth_properties::auth_properties_bytes(v)
}

/// Reading the rest of a AUTH packet of `remaining_length` bytes from a stream: the
/// bytes are taken first, then the variable header is read from them.
pub open spec fn auth_read(s: Seq<u8>, remaining_length: u16) -> (Result<AuthPropertiesView, MqttError>, Seq<u8>) {
    let (b, s1) = data_types::read_bytes_spec(s, remaining_length as int);
    match b {
        Err(e) => (Err(e), s1),
        Ok(body) => (auth_properties::auth_properties_read(body).0, s1),
    }
}

/// Reading the rest of the packet from this stream does not hit a decoding panic.
pub open spec fn auth_read_safe(s: Seq<u8>, remaining_length: u16) -> bool {
    remaining_length <= s.len() ==> auth_properties::auth_properties_safe(s.take(remaining_length as int))
}

/// The packet can be written: its variable header can, and its length fits in the two-byte
/// remaining length.
pub open spec fn auth_fits(v: AuthPropertiesView) -> bool {
    &&& auth_properties::auth_properties_fit(v)
    &&& auth_properties::auth_properties_bytes(v).len() <= u16::MAX
}

impl Auth {
    pub fn new(properties: AuthProperties) -> (res: Auth)
        ensures
            res.properties == properties,
    {
        Auth { properties }
    }

    /// Reads the rest of a AUTH packet whose fixed header announced `remaining_length`
    /// bytes.
    pub fn read_from(stream: &mut &[u8], remaining_length: u16) -> (res: Result<Auth, MqttError>)
        requires
            auth_read_safe(old(stream)@, remaining_length),
        ensures
            ({
                let (r, rest) = auth_read(old(stream)@, remaining_length);
                &&& final(stream)@ == rest
                &&& match res {
                    Ok(a) => r == Ok::<AuthPropertiesView, MqttError>(a.properties@),
                    Err(e) => r == Err::<AuthPropertiesView, MqttError>(e),
                }
            }),
    {
        let aux_buffer = take_bytes(stream, remaining_length as usize)?;
        let mut buffer = aux_buffer;
        let properties = AuthProperties::read_from(&mut buffer)?;
        Ok(Auth { properties })
    }

    /// Writes the packet to a stream.
    pub fn write_to(&self, stream: &mut Vec<u8>) -> (res: Result<(), MqttError>)
        requires
            auth_fits(self.properties@),
        ensures
            res is Ok,
            final(stream)@ == old(stream)@ + auth_bytes(self.properties@),
    {
        let properties = self.properties.as_bytes()?;
        let remaining_length = self.properties.size_of();
        let fixed_header = PacketFixedHeader::new(AUTH_PACKET, remaining_length as u16);
        let fixed_header_bytes = fixed_header.as_bytes();
        append_bytes(stream, fixed_header_bytes.as_slice());
        append_bytes(stream, properties.as_slice());
        assert(final(stream)@ =~= old(stream)@ + auth_bytes(self.properties@));
        Ok(())
    }
}

/// A AUTH packet that can be written reads back as written: the fixed header gives the
/// AUTH type and the length of the rest, and the rest gives the same variable header.
#[verifier::spinoff_prover]
#[verifier::rlimit(30)]
pub proof fn lemma_auth_roundtrip(v: AuthPropertiesView, rest: Seq<u8>)
    requires
        auth_fits(v),
    ensures
        ({
            let body = auth_properties::auth_properties_bytes(v);
            let (h, s1) = fixed_header::fixed_header_read(auth_bytes(v) + rest);
            &&& h == Ok::<(u8, u16), MqttError>((fixed_header::header_type(AUTH_PACKET), body.len() as u16))
            &&& s1 == body + rest
            &&& auth_read_safe(s1, body.len() as u16)
            &&& auth_read(s1, body.len() as u16) == (Ok::<AuthPropertiesView, MqttError>(v), rest)
        }),
{
    let body = auth_properties::auth_properties_bytes(v);
    let n = body.len() as u16;
    let t = fixed_header::header_type(AUTH_PACKET);
    assert(auth_bytes(v) + rest =~= fixed_header::fixed_header_bytes(t, n) + (body + rest));
    fixed_header::lemma_fixed_header_roundtrip(t, n, body + rest);
    fixed_header::lemma_header_type_stable(AUTH_PACKET);
    assert((body + rest).take(n as int) =~= body);
    assert((body + rest).skip(n as int) =~= rest);
    auth_properties::lemma_auth_properties_roundtrip(v, Seq::empty());
    assert(body + Seq::<u8>::empty() =~= body);
}

/// A AUTH packet starts with the byte 0xF0: type 15 in the high four bits, with no flags;
/// read back, that byte names a AUTH packet.
pub proof fn lemma_auth_first_byte(v: AuthPropertiesView)
    ensures
        auth_bytes(v)[0] == 0xF0u8,
        fixed_header::packet_type_of(auth_bytes(v)[0] & 0xF0u8) == crate::control_packets::mqtt_packet::packet::PacketType::AuthType,
{
    fixed_header::lemma_type_byte_constants();
}

} // verus!
