use vstd::prelude::*;
use vstd::utf8::*;

use crate::common::data_types::{string_bytes, string_len, utf8_to_string};
use crate::common::data_types;
use crate::control_packets::mqtt_packet::packet_property::append_bytes;

verus! {

broadcast use {
    vstd::utf8::encode_utf8_valid_utf8,
    vstd::utf8::encode_utf8_decode_utf8,
    vstd::utf8::decode_utf8_encode_utf8,
};

/// A topic filter with its subscription options byte.
#[derive(Clone, Debug)]
pub struct TopicFilter {
    pub topic_filter: String,
    pub subscription_options: u8,
}

/// The bytes of a topic filter: one byte holding the UTF-8 length of the filter plus one
/// (the length taken modulo 256), the filter, then the options byte.
pub open spec fn topic_filter_bytes(topic_filter: Seq<char>, subscription_options: u8) -> Seq<u8> {
    seq![((encode_utf8(topic_filter).len() % 256) + 1) as u8] + encode_utf8(topic_filter) + seq![
        subscription_options,
    ]
}

/// Decoding a topic filter from bytes does not hit a panic: the first byte `n` is at least
/// one, the bytes from 1 to `n` are valid UTF-8, and a byte follows them.
pub open spec fn topic_filter_decodable(bytes: Seq<u8>) -> bool {
    &&& bytes.len() >= 1
    &&& 1 <= bytes[0] < bytes.len()
    &&& valid_utf8(bytes.subrange(1, bytes[0] as int))
}

impl TopicFilter {
    /// The bytes of the filter.
    pub fn as_bytes(&self) -> (res: Vec<u8>)
        requires
            encode_utf8(self.topic_filter@).len() % 256 < 255,
        ensures
            res@ == topic_filter_bytes(self.topic_filter@, self.subscription_options),
    {
        let mut bytes: Vec<u8> = Vec::new();
        let len = (string_len(&self.topic_filter) % 256) as u8 + 1;
        bytes.push(len);
        append_bytes(&mut bytes, string_bytes(&self.topic_filter));
        bytes.push(self.subscription_options);
        assert(bytes@ =~= topic_filter_bytes(self.topic_filter@, self.subscription_options));
        bytes
    }

    /// Decodes a filter: the first byte `n`, the filter in bytes 1 to `n`, then the options
    /// byte.
    pub fn from_be_bytes(bytes: Vec<u8>) -> (res: Self)
        requires
            topic_filter_decodable(bytes@),
        ensures
            res.topic_filter@ == decode_utf8(bytes@.subrange(1, bytes@[0] as int)),
            res.subscription_options == bytes@[bytes@[0] as int],
    {
        let mut index: usize = 0;
        let topic_filter_len = bytes[index];
        index += 1;
        let name = vstd::slice::slice_to_vec(
            vstd::slice::slice_subrange(bytes.as_slice(), index, topic_filter_len as usize),
        );
        let topic_filter = utf8_to_string(name).unwrap();
        index += string_len(&topic_filter);
        let subscription_options = bytes[index];
        TopicFilter { topic_filter, subscription_options }
    }
}

/// Decoding the bytes of a filter that fits gives the filter back.
#[verifier::spinoff_prover]
#[verifier::rlimit(30)]
pub proof fn lemma_topic_filter_roundtrip(topic_filter: Seq<char>, subscription_options: u8)
    requires
        encode_utf8(topic_filter).len() < 255,
    ensures
        topic_filter_decodable(topic_filter_bytes(topic_filter, subscription_options)),
        decode_utf8(
            topic_filter_bytes(topic_filter, subscription_options).subrange(
                1,
                topic_filter_bytes(topic_filter, subscription_options)[0] as int,
            ),
        ) == topic_filter,
        topic_filter_bytes(topic_filter, subscription_options)[topic_filter_bytes(
            topic_filter,
            subscription_options,
        )[0] as int] == subscription_options,
{
    let e = encode_utf8(topic_filter);
    let b = topic_filter_bytes(topic_filter, subscription_options);
    assert(b[0] == (e.len() + 1) as u8);
    assert(b.subrange(1, e.len() + 1 as int) =~= e);
}

} // verus!
