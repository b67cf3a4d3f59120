use vstd::prelude::*;

use crate::common::data_types::MqttError;
use crate::common::data_types;

verus! {

/// Reads one byte from a stream.
pub fn read_byte(stream: &mut &[u8]) -> (res: Result<u8, MqttError>)
    ensures
        (res, final(stream)@) == data_types::read_byte_spec(old(stream)@),
{
    data_types::read_byte(stream)
}

/// Reads a big-endian two-byte integer from a stream.
pub fn read_two_byte_integer(stream: &mut &[u8]) -> (res: Result<u16, MqttError>)
    ensures
        (res, final(stream)@) == data_types::read_u16_spec(old(stream)@),
{
    data_types::read_two_byte_integer(stream)
}

/// Reads a big-endian four-byte integer from a stream.
pub fn _read_four_byte_integer(stream: &mut &[u8]) -> (res: Result<u32, MqttError>)
    ensures
        (res, final(stream)@) == data_types::read_u32_spec(old(stream)@),
{
    data_types::read_four_byte_integer(stream)
}

/// Reads a UTF-8 string of `length` bytes from a stream.
pub fn read_utf8_encoded_string(stream: &mut &[u8], length: u16) -> (res: Result<String, MqttError>)
    ensures
        (data_types::string_result(res), final(stream)@) == data_types::read_string_spec(
            old(stream)@,
            length as int,
        ),
{
    data_types::read_utf8_encoded_string(stream, length)
}

} // verus!
