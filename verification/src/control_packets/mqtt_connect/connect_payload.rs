//! The payload of a CONNECT packet in its first form: the client identifier alone, with
//! its length counted in one byte.
use vstd::prelude::*;
use vstd::utf8::*;

use crate::common::data_types::{read_text, string_bytes, string_len, MqttError};
use crate::common::data_types;
use crate::control_packets::mqtt_packet::packet_property::{append_bytes, push_u16};

verus! {

broadcast use {vstd::utf8::encode_utf8_valid_utf8, vstd::utf8::encode_utf8_decode_utf8};

/// The fields of the payload: the client identifier.
pub struct ConnectPayloadFields {
    pub client_id: String,
}

/// The length the payload records for a client identifier: its UTF-8 length taken modulo
/// 2^8, plus the two bytes of the length field.
pub open spec fn fields_length(client_id: Seq<char>) -> int {
    (encode_utf8(client_id).len() % 256) as int + 2
}

impl ConnectPayloadFields {
    pub fn new(client_id: String) -> (res: Self)
        ensures
            res.client_id == client_id,
    {
        ConnectPayloadFields { client_id }
    }

    /// The number of bytes of the fields, counted in one byte.
    pub fn length(&self) -> (res: u8)
        requires
            fields_length(self.client_id@) <= u8::MAX,
        ensures
            res == fields_length(self.client_id@),
    {
        (string_len(&self.client_id) % 256) as u8 + 2
    }
}

/// The payload: its recorded length and its fields.
pub struct ConnectPayload {
    pub bytes_length: u8,
    pub fields: ConnectPayloadFields,
}

/// The bytes of the payload: the client identifier as a length-prefixed string.
pub open spec fn connect_payload_bytes(client_id: Seq<char>) -> Seq<u8> {
    data_types::text_bytes(client_id)
}

/// Reading the payload from this stream builds it: a client identifier read there has a
/// length whose count fits in one byte.
pub open spec fn connect_payload_safe(s: Seq<u8>) -> bool {
    data_types::read_text_spec(s).0 matches Ok(c) ==> fields_length(c) <= u8::MAX
}

impl ConnectPayload {
    /// The recorded length.
    pub fn length(&self) -> (res: u8)
        ensures
            res == self.bytes_length,
    {
        self.bytes_length
    }

    /// The payload of a client identifier, with the length of its fields.
    pub fn new(client_id: String) -> (res: Self)
        requires
            fields_length(client_id@) <= u8::MAX,
        ensures
            res.fields.client_id == client_id,
            res.bytes_length == fields_length(client_id@),
    {
        let fields = ConnectPayloadFields::new(client_id);
        ConnectPayload { bytes_length: fields.length(), fields }
    }

    /// The bytes of the payload.
    pub fn as_bytes(&self) -> (res: Vec<u8>)
        ensures
            res@ == connect_payload_bytes(self.fields.client_id@),
    {
        let mut bytes: Vec<u8> = Vec::new();
        push_u16(&mut bytes, (string_len(&self.fields.client_id) % 65536) as u16);
        append_bytes(&mut bytes, string_bytes(&self.fields.client_id));
        assert(bytes@ =~= connect_payload_bytes(self.fields.client_id@));
        bytes
    }

    /// Reads the client identifier from a stream and builds the payload; the given length
    /// is not used.
    pub fn read_from(stream: &mut &[u8], _length: u8) -> (res: Result<Self, MqttError>)
        requires
            connect_payload_safe(old(stream)@),
        ensures
            final(stream)@ == data_types::read_text_spec(old(stream)@).1,
            match data_types::read_text_spec(old(stream)@).0 {
                Ok(c) => res matches Ok(p) && p.fields.client_id@ == c && p.bytes_length
                    == fields_length(c),
                Err(e) => res == Err::<Self, MqttError>(e),
            },
    {
        let client_id = read_text(stream)?;
        Ok(ConnectPayload::new(client_id))
    }
}

/// Reading back the bytes of a payload gives its client identifier, when the identifier
/// fits its length field.
#[verifier::spinoff_prover]
#[verifier::rlimit(30)]
pub proof fn lemma_client_id_roundtrip(client_id: Seq<char>, rest: Seq<u8>)
    requires
        encode_utf8(client_id).len() <= u16::MAX,
    ensures
        data_types::read_text_spec(connect_payload_bytes(client_id) + rest) == (
            Ok::<Seq<char>, MqttError>(client_id),
            rest,
        ),
{
    data_types::lemma_read_text_prefix(client_id, rest);
}

} // verus!
