use vstd::prelude::*;

use crate::common::data_types::{read_byte, MqttError};
use crate::common::data_types;
use crate::control_packets::mqtt_connack::connack_properties::ConnackProperties;
use crate::control_packets::mqtt_connack::connack_properties;
use crate::control_packets::mqtt_packet::packet_property::append_bytes;
use crate::control_packets::mqtt_packet::property_model::PropertyModel;
use crate::control_packets::mqtt_packet::property_model;
use crate::control_packets::mqtt_packet::variable_header_properties::VariableHeaderProperties;
use crate::control_packets::mqtt_packet::variable_header_properties;

verus! {

/// The variable header of a CONNACK packet, with its properties as a properties block.
pub struct ConnackVariableHeader {
    pub connect_acknowledge_flags: u8,
    pub connect_reason_code: u8,
    pub properties: VariableHeaderProperties,
}

/// The bytes of the header: the acknowledge flags, the reason code, then the block.
pub open spec fn connack_variable_header_bytes(flags: u8, code: u8, bytes_length: u16, ps: Seq<PropertyModel>) -> Seq<u8> {
    seq![flags, code] + variable_header_properties::properties_block_bytes(bytes_length, ps)
}

/// Reading the header from a stream: the two bytes, then a properties block.
pub open spec fn connack_variable_header_read(s: Seq<u8>) -> (Result<(u8, u8, u16, Seq<PropertyModel>), MqttError>, Seq<u8>) {
    let (f, s1) = data_types::read_byte_spec(s);
    match f {
        Err(e) => (Err(e), s1),
        Ok(flags) => {
            let (c, s2) = data_types::read_byte_spec(s1);
            match c {
                Err(e) => (Err(e), s2),
                Ok(code) => match variable_header_properties::properties_block_read(s2) {
                    (Err(e), s3) => (Err(e), s3),
                    (Ok((n, ps)), s3) => (Ok((flags, code, n, ps)), s3),
                },
            }
        },
    }
}

/// Reading the header from this stream does not hit a decoding panic.
pub open spec fn connack_variable_header_safe(s: Seq<u8>) -> bool {
    s.len() >= 2 ==> variable_header_properties::properties_block_safe(s.skip(2))
}

/// The properties block of a CONNACK variable header.
pub fn new_connack_properties(connack_props: &ConnackProperties) -> (res: Result<VariableHeaderProperties, MqttError>)
    requires
        property_model::slots_fit(connack_properties::connack_properties_slots(connack_props@)),
    ensures
        res matches Ok(b) && b.wf() && b.models() == property_model::slot_list(
            connack_properties::connack_properties_slots(connack_props@),
        ),
{
    connack_props.as_variable_header_properties()
}

impl ConnackVariableHeader {
    /// The number of bytes of the header, not counting the two-byte length of the block.
    pub fn length(&self) -> (res: u16)
        requires
            self.properties.bytes_length <= u16::MAX - 2,
        ensures
            res == 2 + self.properties.bytes_length,
    {
        1 + 1 + self.properties.bytes_length
    }

    /// The bytes of the header.
    pub fn as_bytes(&self) -> (res: Vec<u8>)
        ensures
            res@ == connack_variable_header_bytes(
                self.connect_acknowledge_flags,
                self.connect_reason_code,
                self.properties.bytes_length,
                self.properties.models(),
            ),
    {
        let mut bytes: Vec<u8> = Vec::new();
        bytes.push(self.connect_acknowledge_flags);
        bytes.push(self.connect_reason_code);
        let block = self.properties.as_bytes();
        append_bytes(&mut bytes, block.as_slice());
        assert(bytes@ =~= connack_variable_header_bytes(
            self.connect_acknowledge_flags,
            self.connect_reason_code,
            self.properties.bytes_length,
            self.properties.models(),
        ));
        bytes
    }

    /// Reads the header from a stream.
    pub fn read_from(stream: &mut &[u8]) -> (res: Result<Self, MqttError>)
        requires
            connack_variable_header_safe(old(stream)@),
        ensures
            ({
                let (r, rest) = connack_variable_header_read(old(stream)@);
                &&& final(stream)@ == rest
                &&& match res {
                    Ok(h) => r == Ok::<(u8, u8, u16, Seq<PropertyModel>), MqttError>(
                        (
                            h.connect_acknowledge_flags,
                            h.connect_reason_code,
                            h.properties.bytes_length,
                            h.properties.models(),
                        ),
                    ),
                    Err(e) => r == Err::<(u8, u8, u16, Seq<PropertyModel>), MqttError>(e),
                }
            }),
    {
        let ghost s0 = stream@;
        let connect_acknowledge_flags = read_byte(stream)?;
        let connect_reason_code = read_byte(stream)?;
        assert(stream@ =~= s0.skip(2));
        let properties = VariableHeaderProperties::read_from(stream)?;
        Ok(ConnackVariableHeader { connect_acknowledge_flags, connect_reason_code, properties })
    }

    /// The variable header of a CONNACK packet with the given properties.
    pub fn new(props: &ConnackProperties) -> (res: Result<Self, MqttError>)
        requires
            property_model::slots_fit(connack_properties::connack_properties_slots(props@)),
        ensures
            res matches Ok(h) && h.connect_acknowledge_flags == props.connect_acknowledge_flags
                && h.connect_reason_code == props.connect_reason_code && h.properties.wf()
                && h.properties.models() == property_model::slot_list(
                connack_properties::connack_properties_slots(props@),
            ),
    {
        let properties = new_connack_properties(props)?;
        let variable_header = ConnackVariableHeader {
            connect_reason_code: props.connect_reason_code,
            connect_acknowledge_flags: props.connect_acknowledge_flags,
            properties,
        };
        Ok(variable_header)
    }
}

} // verus!
