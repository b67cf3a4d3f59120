use vstd::prelude::*;
use vstd::utf8::*;

use crate::common::data_types::{read_two_byte_integer, read_utf8_encoded_string, string_len, MqttError};
use crate::common::data_types;
use crate::control_packets::mqtt_packet::packet_property::push_text;

verus! {

/// The payload of a PUBLISH packet in the older layout: the recorded length of the message,
/// and the message.
pub struct _PublishPayload {
    pub bytes_length: u16,
    pub message: String,
}

/// Reading the payload from a stream: a two-byte length, then a UTF-8 message of that length.
pub open spec fn publish_payload_read(s: Seq<u8>) -> (Result<(u16, Seq<char>), MqttError>, Seq<u8>) {
    let (l, s1) = data_types::read_u16_spec(s);
    match l {
        Err(e) => (Err(e), s1),
        Ok(n) => match data_types::read_string_spec(s1, n as int) {
            (Err(e), s2) => (Err(e), s2),
            (Ok(m), s2) => (Ok((n, m)), s2),
        },
    }
}

impl _PublishPayload {
    /// The recorded length of the message.
    pub fn _length(&self) -> (res: u16)
        ensures
            res == self.bytes_length,
    {
        self.bytes_length
    }

    /// The payload of a message; its length is the UTF-8 length, taken modulo 2^16.
    pub fn _new(message: String) -> (res: Self)
        ensures
            res.bytes_length == encode_utf8(message@).len() % 65536,
            res.message == message,
    {
        _PublishPayload { bytes_length: (string_len(&message) % 65536) as u16, message }
    }

    /// The bytes of the payload: the length-prefixed message.
    pub fn _as_bytes(&self) -> (res: Vec<u8>)
        ensures
            res@ == data_types::text_bytes(self.message@),
    {
        let mut bytes: Vec<u8> = Vec::new();
        push_text(&mut bytes, &self.message);
        assert(bytes@ =~= data_types::text_bytes(self.message@));
        bytes
    }

    /// Reads the payload from a stream.
    pub fn _read_from(stream: &mut &[u8]) -> (res: Result<Self, MqttError>)
        ensures
            ({
                let (r, rest) = publish_payload_read(old(stream)@);
                &&& final(stream)@ == rest
                &&& match res {
                    Ok(p) => r == Ok::<(u16, Seq<char>), MqttError>((p.bytes_length, p.message@)),
                    Err(e) => r == Err::<(u16, Seq<char>), MqttError>(e),
                }
            }),
    {
        let message_len = read_two_byte_integer(stream)?;
        let message = read_utf8_encoded_string(stream, message_len)?;
        Ok(_PublishPayload { bytes_length: message_len, message })
    }
}

} // verus!
