//! The variable header of a CONNECT packet as a record of its fields: the protocol name
//! with its recorded length, the protocol version, the connect flags, the keep alive and
//! the properties block.
use vstd::prelude::*;
use vstd::utf8::*;

use crate::common::data_types::{
    read_byte, read_two_byte_integer, read_utf8_encoded_string, string_bytes, string_len,
    MqttError,
};
use crate::common::data_types;
use crate::control_packets::mqtt_connect::connect_properties::ConnectProperties;
use crate::control_packets::mqtt_connect::connect_properties;
use crate::control_packets::mqtt_packet::packet_property::{append_bytes, push_u16};
use crate::control_packets::mqtt_packet::property_model::{PropertyModel, PropertyTable};
use crate::control_packets::mqtt_packet::property_model;
use crate::control_packets::mqtt_packet::variable_header_properties::VariableHeaderProperties;
use crate::control_packets::mqtt_packet::variable_header_properties;

verus! {

broadcast use {vstd::utf8::encode_utf8_valid_utf8, vstd::utf8::encode_utf8_decode_utf8};

/// The protocol name and the length recorded for it.
pub struct VariableHeaderProtocolName {
    pub length: u16,
    pub name: String,
}

/// The variable header of a CONNECT packet.
pub struct ConnectVariableHeader {
    pub protocol_name: VariableHeaderProtocolName,
    pub protocol_version: u8,
    pub connect_flags: u8,
    pub keep_alive: u16,
    pub properties: VariableHeaderProperties,
}

/// The mathematical value of a [`ConnectVariableHeader`].
pub struct ConnectVariableHeaderView {
    pub name_length: u16,
    pub name: Seq<char>,
    pub protocol_version: u8,
    pub connect_flags: u8,
    pub keep_alive: u16,
    pub properties_length: u16,
    pub properties: Seq<PropertyModel>,
}

impl View for ConnectVariableHeader {
    type V = ConnectVariableHeaderView;

    open spec fn view(&self) -> ConnectVariableHeaderView {
        ConnectVariableHeaderView {
            name_length: self.protocol_name.length,
            name: self.protocol_name.name@,
            protocol_version: self.protocol_version,
            connect_flags: self.connect_flags,
            keep_alive: self.keep_alive,
            properties_length: self.properties.bytes_length,
            properties: self.properties.models(),
        }
    }
}

/// The bytes of the header: the recorded name length, the name, the version, the flags,
/// the keep alive, then the properties block.
pub open spec fn connect_variable_header_bytes(v: ConnectVariableHeaderView) -> Seq<u8> {
    data_types::be16(v.name_length as int) + encode_utf8(v.name) + seq![v.protocol_version]
        + seq![v.connect_flags] + data_types::be16(v.keep_alive as int)
        + variable_header_properties::properties_block_bytes(v.properties_length, v.properties)
}

/// Reading the header from a stream, field by field; the first field that cannot be read
/// gives the error.
pub open spec fn connect_variable_header_read(s: Seq<u8>) -> (Result<ConnectVariableHeaderView, MqttError>, Seq<u8>) {
    let (r0, s0) = data_types::read_u16_spec(s);
    match r0 {
        Err(e) => (Err(e), s0),
        Ok(name_length) => {
            let (r1, s1) = data_types::read_string_spec(s0, name_length as int);
            match r1 {
                Err(e) => (Err(e), s1),
                Ok(name) => {
                    let (r2, s2) = data_types::read_byte_spec(s1);
                    match r2 {
                        Err(e) => (Err(e), s2),
                        Ok(protocol_version) => {
                            let (r3, s3) = data_types::read_byte_spec(s2);
                            match r3 {
                                Err(e) => (Err(e), s3),
                                Ok(connect_flags) => {
                                    let (r4, s4) = data_types::read_u16_spec(s3);
                                    match r4 {
                                        Err(e) => (Err(e), s4),
                                        Ok(keep_alive) => {
                                            let (b, sb) = variable_header_properties::properties_block_read(s4);
                                            match b {
                                                Err(e) => (Err(e), sb),
                                                Ok((properties_length, properties)) => (
                                                    Ok(
                                                        ConnectVariableHeaderView {
                                                            name_length,
                                                            name,
                                                            protocol_version,
                                                            connect_flags,
                                                            keep_alive,
                                                            properties_length,
                                                            properties,
                                                        },
                                                    ),
                                                    sb,
                                                ),
                                            }
                                        },
                                    }
                                },
                            }
                        },
                    }
                },
            }
        },
    }
}

/// Reading the header from this stream does not hit a decoding panic in its properties.
pub open spec fn connect_variable_header_safe(s: Seq<u8>) -> bool {
    let (r0, s0) = data_types::read_u16_spec(s);
    r0 matches Ok(n) ==> {
        let (r1, s1) = data_types::read_string_spec(s0, n as int);
        r1 is Ok ==> {
            let (r2, s2) = data_types::read_byte_spec(s1);
            r2 is Ok ==> {
                let (r3, s3) = data_types::read_byte_spec(s2);
                r3 is Ok ==> {
                    let (r4, s4) = data_types::read_u16_spec(s3);
                    r4 is Ok ==> variable_header_properties::properties_block_safe(s4)
                }
            }
        }
    }
}

pub open spec fn connect_variable_header_result(r: Result<ConnectVariableHeader, MqttError>) -> Result<ConnectVariableHeaderView, MqttError> {
    match r {
        Ok(h) => Ok(h@),
        Err(e) => Err(e),
    }
}

/// The properties block built from the optional fields of a CONNECT header, in the order
/// Session Expiry Interval, Authentication Data, Authentication Method, Request Problem
/// Information, Request Response Information, Receive Maximum, Topic Alias Maximum, User
/// Property, Maximum Packet Size.
pub fn new_connect_properties(connect_props: &ConnectProperties) -> (res: Result<VariableHeaderProperties, MqttError>)
    requires
        property_model::slots_fit(connect_properties::connect_properties_slots(connect_props@)),
    ensures
        res matches Ok(b) && b.wf() && b.models() == property_model::slot_list(
            connect_properties::connect_properties_slots(connect_props@),
        ),
{
    connect_props.as_variable_header_properties()
}

impl ConnectVariableHeader {
    /// The length the header counts: two bytes and the recorded name length, the version,
    /// the flags, the keep alive and the recorded properties length.
    pub fn length(&self) -> (res: u16)
        requires
            2 + self.protocol_name.length + 1 + 1 + 2 + self.properties.bytes_length <= u16::MAX,
        ensures
            res == 2 + self.protocol_name.length + 1 + 1 + 2 + self.properties.bytes_length,
    {
        2 + self.protocol_name.length + 1 + 1 + 2 + self.properties.bytes_length
    }

    /// The header of a CONNECT with these fields; the name length is the UTF-8 length of the
    /// name taken modulo 2^16.
    pub fn new(props: &ConnectProperties) -> (res: Result<Self, MqttError>)
        requires
            property_model::slots_fit(connect_properties::connect_properties_slots(props@)),
        ensures
            res matches Ok(h) && h@ == (ConnectVariableHeaderView {
                name_length: (encode_utf8(props@.protocol_name).len() % 65536) as u16,
                name: props@.protocol_name,
                protocol_version: props@.protocol_version,
                connect_flags: props@.connect_flags,
                keep_alive: props@.keep_alive,
                properties_length: property_model::properties_bytes(
                    property_model::slot_list(connect_properties::connect_properties_slots(props@)),
                ).len() as u16,
                properties: property_model::slot_list(connect_properties::connect_properties_slots(props@)),
            }) && h.properties.wf(),
    {
        let properties = new_connect_properties(props)?;
        let length = (string_len(&props.protocol_name) % 65536) as u16;
        let variable_header = ConnectVariableHeader {
            protocol_name: VariableHeaderProtocolName { length, name: props.protocol_name.clone() },
            protocol_version: props.protocol_version,
            connect_flags: props.connect_flags,
            keep_alive: props.keep_alive,
            properties,
        };
        Ok(variable_header)
    }

    /// The bytes of the header.
    pub fn as_bytes(&self) -> (res: Vec<u8>)
        ensures
            res@ == connect_variable_header_bytes(self@),
    {
        let mut bytes: Vec<u8> = Vec::new();
        push_u16(&mut bytes, self.protocol_name.length);
        append_bytes(&mut bytes, string_bytes(&self.protocol_name.name));
        bytes.push(self.protocol_version);
        bytes.push(self.connect_flags);
        push_u16(&mut bytes, self.keep_alive);
        let block = self.properties.as_bytes();
        append_bytes(&mut bytes, block.as_slice());
        assert(bytes@ =~= connect_variable_header_bytes(self@));
        bytes
    }

    /// Reads the header from a stream.
    pub fn read_from(stream: &mut &[u8]) -> (res: Result<Self, MqttError>)
        requires
            connect_variable_header_safe(old(stream)@),
        ensures
            (connect_variable_header_result(res), final(stream)@) == connect_variable_header_read(
                old(stream)@,
            ),
    {
        let protocol_name_length = read_two_byte_integer(stream)?;
        let protocol_name = read_utf8_encoded_string(stream, protocol_name_length)?;
        let protocol_version = read_byte(stream)?;
        let connect_flags = read_byte(stream)?;
        let keep_alive = read_two_byte_integer(stream)?;
        let properties = VariableHeaderProperties::read_from(stream)?;
        Ok(ConnectVariableHeader {
            protocol_name: VariableHeaderProtocolName {
                length: protocol_name_length,
                name: protocol_name,
            },
            protocol_version,
            connect_flags,
            keep_alive,
            properties,
        })
    }
}

/// Reading back the bytes of a header gives the header and leaves what follows, when the
/// recorded lengths are the true ones and each property decodes back to itself.
#[verifier::spinoff_prover]
#[verifier::rlimit(30)]
pub proof fn lemma_connect_variable_header_roundtrip(v: ConnectVariableHeaderView, rest: Seq<u8>)
    requires
        v.name_length == encode_utf8(v.name).len(),
        v.properties_length == property_model::properties_bytes(v.properties).len(),
        property_model::all_encodable(PropertyTable::Current, v.properties),
    ensures
        connect_variable_header_read(connect_variable_header_bytes(v) + rest) == (
            Ok::<ConnectVariableHeaderView, MqttError>(v),
            rest,
        ),
        connect_variable_header_safe(connect_variable_header_bytes(v) + rest),
{
    let block = variable_header_properties::properties_block_bytes(v.properties_length, v.properties);
    variable_header_properties::lemma_properties_block_roundtrip(v.properties_length, v.properties, rest);
    let t3 = data_types::be16(v.keep_alive as int) + (block + rest);
    let t2 = seq![v.connect_flags] + t3;
    let t1 = seq![v.protocol_version] + t2;
    let s = connect_variable_header_bytes(v) + rest;
    assert(s =~= data_types::text_bytes(v.name) + t1);
    data_types::lemma_read_text_prefix(v.name, t1);
    assert(data_types::read_u16_spec(s) == (Ok::<u16, MqttError>(v.name_length), encode_utf8(v.name) + t1)) by {
        assert(s.skip(2) =~= encode_utf8(v.name) + t1);
        data_types::lemma_read_u16_prefix(v.name_length, encode_utf8(v.name) + t1);
        assert(s =~= data_types::be16(v.name_length as int) + (encode_utf8(v.name) + t1));
    }
    assert(data_types::read_string_spec(encode_utf8(v.name) + t1, v.name_length as int) == (Ok::<Seq<char>, MqttError>(v.name), t1));
    data_types::lemma_read_byte_prefix(v.protocol_version, t2);
    data_types::lemma_read_byte_prefix(v.connect_flags, t3);
    data_types::lemma_read_u16_prefix(v.keep_alive, block + rest);
}

} // verus!
