use vstd::prelude::*;
use vstd::utf8::*;

use crate::common::data_types::{read_text, MqttError};
use crate::common::data_types;
use crate::control_packets::mqtt_packet::packet_property::push_text;

verus! {

/// The bytes of a user name and a password: each a length-prefixed string.
pub open spec fn credentials_bytes(username: Seq<char>, password: Seq<char>) -> Seq<u8> {
    data_types::text_bytes(username) + data_types::text_bytes(password)
}

/// Decoding a user name and a password from bytes does not hit a panic: both strings are
/// there, in full and valid UTF-8.
pub open spec fn credentials_decodable(b: Seq<u8>) -> bool {
    &&& data_types::read_text_spec(b).0 is Ok
    &&& data_types::read_text_spec(data_types::read_text_spec(b).1).0 is Ok
}

/// Writes a user name and a password, each as a length-prefixed string.
pub fn serialize_username_password(username: &String, password: &String) -> (res: Vec<u8>)
    ensures
        res@ == credentials_bytes(username@, password@),
{
    let mut bytes: Vec<u8> = Vec::new();
    push_text(&mut bytes, username);
    push_text(&mut bytes, password);
    assert(bytes@ =~= credentials_bytes(username@, password@));
    bytes
}

/// Reads a user name and a password, each as a length-prefixed string.
pub fn deserialize_username_password(buffer: Vec<u8>) -> (res: (String, String))
    requires
        credentials_decodable(buffer@),
    ensures
        data_types::read_text_spec(buffer@).0 == Ok::<Seq<char>, MqttError>(res.0@),
        data_types::read_text_spec(data_types::read_text_spec(buffer@).1).0 == Ok::<
            Seq<char>,
            MqttError,
        >(res.1@),
{
    let mut buffer: &[u8] = buffer.as_slice();
    let username = read_text(&mut buffer).unwrap();
    let password = read_text(&mut buffer).unwrap();
    (username, password)
}

/// Reading back the bytes of a user name and a password that fit their length prefixes
/// gives them back.
#[verifier::spinoff_prover]
#[verifier::rlimit(30)]
pub proof fn lemma_credentials_roundtrip(username: Seq<char>, password: Seq<char>)
    requires
        encode_utf8(username).len() <= u16::MAX,
        encode_utf8(password).len() <= u16::MAX,
    ensures
        credentials_decodable(credentials_bytes(username, password)),
        data_types::read_text_spec(credentials_bytes(username, password)).0 == Ok::<
            Seq<char>,
            MqttError,
        >(username),
        data_types::read_text_spec(data_types::read_text_spec(credentials_bytes(username, password)).1).0
            == Ok::<Seq<char>, MqttError>(password),
{
    data_types::lemma_read_text_prefix(username, data_types::text_bytes(password));
    data_types::lemma_read_text_prefix(password, Seq::empty());
    assert(data_types::text_bytes(password) + Seq::<u8>::empty() =~= data_types::text_bytes(password));
}

} // verus!
