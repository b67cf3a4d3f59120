use vstd::prelude::*;
use vstd::utf8::*;

use crate::common::data_types::{read_byte, read_text, read_two_byte_integer, string_len, MqttError};
use crate::common::data_types;
use crate::common::flags::flags_handler;
use crate::control_packets::mqtt_packet::packet_property::{append_bytes, clone_opt_pair, clone_opt_string, opt_bytes_to_string, push_text, push_u16, SUBSCRIPTION_IDENTIFIER, USER_PROPERTY};
use crate::control_packets::mqtt_packet::packet_property;
use crate::control_packets::mqtt_packet::property_model::{PropertyModel, PropertyTable, Slot};
use crate::control_packets::mqtt_packet::property_model;
use crate::control_packets::mqtt_packet::variable_header_properties::VariableHeaderProperties;
use crate::control_packets::mqtt_packet::variable_header_properties;

verus! {

broadcast use {vstd::utf8::encode_utf8_valid_utf8, vstd::utf8::encode_utf8_decode_utf8};

/// A topic filter of a SUBSCRIBE packet, with its subscription options byte.
#[derive(Debug)]
pub struct TopicFilter {
    pub topic_filter: String,
    pub subscription_options: u8,
}

impl Clone for TopicFilter {
    fn clone(&self) -> (res: Self)
        ensures
            res.topic_filter@ == self.topic_filter@,
            res.subscription_options == self.subscription_options,
    {
        TopicFilter {
            topic_filter: self.topic_filter.clone(),
            subscription_options: self.subscription_options,
        }
    }
}

/// The value of a list of topic filters: each filter's characters and options byte.
pub open spec fn topic_filters_view(fs: Seq<TopicFilter>) -> Seq<(Seq<char>, u8)> {
    fs.map_values(|f: TopicFilter| (f.topic_filter@, f.subscription_options))
}

/// The bytes of a list of topic filters: each filter as a length-prefixed string followed
/// by its options byte.
pub closed spec fn topic_filters_bytes(fs: Seq<(Seq<char>, u8)>) -> Seq<u8>
    decreases fs.len(),
{
    if fs.len() == 0 {
        Seq::empty()
    } else {
        topic_filters_bytes(fs.drop_last()) + data_types::text_bytes(fs.last().0) + seq![fs.last().1]
    }
}

/// The payload of a SUBSCRIBE packet: the number of topic filters, then the filters.
pub open spec fn subscribe_payload_bytes(fs: Seq<(Seq<char>, u8)>) -> Seq<u8> {
    data_types::be16(fs.len() as int) + topic_filters_bytes(fs)
}

/// Reading `n` topic filters from a stream.
pub open spec fn topic_filters_read(s: Seq<u8>, n: nat) -> (Result<Seq<(Seq<char>, u8)>, MqttError>, Seq<u8>)
    decreases n,
{
    if n == 0 {
        (Ok(Seq::empty()), s)
    } else {
        let (r, s1) = topic_filters_read(s, (n - 1) as nat);
        match r {
            Err(e) => (Err(e), s1),
            Ok(fs) => {
                let (t, s2) = data_types::read_text_spec(s1);
                match t {
                    Err(e) => (Err(e), s2),
                    Ok(name) => {
                        let (o, s3) = data_types::read_byte_spec(s2);
                        match o {
                            Err(e) => (Err(e), s3),
                            Ok(options) => (Ok(fs.push((name, options))), s3),
                        }
                    },
                }
            },
        }
    }
}

/// Reading the payload of a SUBSCRIBE packet: the number of filters, then the filters.
pub open spec fn subscribe_payload_read(s: Seq<u8>) -> (Result<Seq<(Seq<char>, u8)>, MqttError>, Seq<u8>) {
    let (c, s1) = data_types::read_u16_spec(s);
    match c {
        Err(e) => (Err(e), s1),
        Ok(n) => topic_filters_read(s1, n as nat),
    }
}

/// The filters can be written: their number fits in two bytes, and each filter fits its
/// length prefix.
pub open spec fn topic_filters_fit(fs: Seq<(Seq<char>, u8)>) -> bool {
    &&& fs.len() <= u16::MAX
    &&& forall|i: int| 0 <= i < fs.len() ==> encode_utf8(#[trigger] fs[i].0).len() <= u16::MAX
}

proof fn lemma_topic_filters_step(fs: Seq<(Seq<char>, u8)>, i: int)
    requires
        0 <= i < fs.len(),
    ensures
        topic_filters_bytes(fs.take(i + 1)) == topic_filters_bytes(fs.take(i)) + data_types::text_bytes(fs[i].0)
            + seq![fs[i].1],
{
    assert(fs.take(i + 1).drop_last() =~= fs.take(i));
}

proof fn lemma_topic_filters_prefix_len(fs: Seq<(Seq<char>, u8)>, i: int)
    requires
        0 <= i <= fs.len(),
    ensures
        topic_filters_bytes(fs.take(i)).len() <= topic_filters_bytes(fs).len(),
    decreases fs.len() - i,
{
    if i < fs.len() {
        lemma_topic_filters_step(fs, i);
        lemma_topic_filters_prefix_len(fs, i + 1);
    } else {
        assert(fs.take(i) =~= fs);
    }
}

/// Once reading topic filters fails, reading more of them fails in the same way.
proof fn lemma_topic_filters_read_err(s: Seq<u8>, k: nat, n: nat)
    requires
        k <= n,
        topic_filters_read(s, k).0 is Err,
    ensures
        topic_filters_read(s, n) == topic_filters_read(s, k),
    decreases n - k,
{
    if k < n {
        lemma_topic_filters_read_err(s, k, (n - 1) as nat);
    }
}

/// Reading back the bytes of filters that fit gives the filters back, and leaves what
/// follows.
#[verifier::spinoff_prover]
#[verifier::rlimit(30)]
pub proof fn lemma_topic_filters_roundtrip(fs: Seq<(Seq<char>, u8)>, rest: Seq<u8>)
    requires
        forall|i: int| 0 <= i < fs.len() ==> encode_utf8(#[trigger] fs[i].0).len() <= u16::MAX,
    ensures
        topic_filters_read(topic_filters_bytes(fs) + rest, fs.len()) == (
            Ok::<Seq<(Seq<char>, u8)>, MqttError>(fs),
            rest,
        ),
    decreases fs.len(),
{
    if fs.len() > 0 {
        let init = fs.drop_last();
        let last = fs.last();
        let tail = data_types::text_bytes(last.0) + seq![last.1] + rest;
        assert forall|i: int| 0 <= i < init.len() implies encode_utf8(#[trigger] init[i].0).len()
            <= u16::MAX by {
            assert(init[i] == fs[i]);
        }
        assert(fs[fs.len() - 1] == last);
        assert(encode_utf8(fs[fs.len() - 1].0).len() <= u16::MAX);
        lemma_topic_filters_roundtrip(init, tail);
        assert(init.len() == (fs.len() - 1) as nat);
        assert(topic_filters_bytes(fs) + rest =~= topic_filters_bytes(init) + tail);
        data_types::lemma_read_text_prefix(last.0, seq![last.1] + rest);
        assert(tail =~= data_types::text_bytes(last.0) + (seq![last.1] + rest));
        data_types::lemma_read_byte_prefix(last.1, rest);
        assert(init.push(last) =~= fs);
    } else {
        assert(topic_filters_bytes(fs) + rest =~= rest);
        assert(fs =~= Seq::<(Seq<char>, u8)>::empty());
    }
}

/// Reading back the payload of filters that fit gives the filters back.
#[verifier::spinoff_prover]
#[verifier::rlimit(30)]
pub proof fn lemma_subscribe_payload_roundtrip(fs: Seq<(Seq<char>, u8)>, rest: Seq<u8>)
    requires
        topic_filters_fit(fs),
    ensures
        subscribe_payload_read(subscribe_payload_bytes(fs) + rest) == (
            Ok::<Seq<(Seq<char>, u8)>, MqttError>(fs),
            rest,
        ),
{
    let n = fs.len() as u16;
    assert(subscribe_payload_bytes(fs) + rest =~= data_types::be16(n as int) + (topic_filters_bytes(fs) + rest));
    data_types::lemma_read_u16_prefix(n, topic_filters_bytes(fs) + rest);
    lemma_topic_filters_roundtrip(fs, rest);
}

/// Appends the payload of a SUBSCRIBE packet: the number of filters, then the filters.
fn write_topic_filters(bytes: &mut Vec<u8>, topic_filters: &Vec<TopicFilter>)
    requires
        topic_filters@.len() <= u16::MAX,
    ensures
        final(bytes)@ == old(bytes)@ + subscribe_payload_bytes(topic_filters_view(topic_filters@)),
{
    let ghost fs = topic_filters_view(topic_filters@);
    push_u16(bytes, topic_filters.len() as u16);
    let ghost start = bytes@;
    let mut i: usize = 0;
    while i < topic_filters.len()
        invariant
            0 <= i <= topic_filters@.len(),
            fs == topic_filters_view(topic_filters@),
            bytes@ == start + topic_filters_bytes(fs.take(i as int)),
        decreases topic_filters@.len() - i,
    {
        let topic = &topic_filters[i];
        proof {
            lemma_topic_filters_step(fs, i as int);
        }
        push_text(bytes, &topic.topic_filter);
        bytes.push(topic.subscription_options);
        assert(bytes@ =~= start + topic_filters_bytes(fs.take(i + 1)));
        i += 1;
    }
    assert(fs.take(fs.len() as int) =~= fs);
    assert(old(bytes)@ + subscribe_payload_bytes(fs) =~= start + topic_filters_bytes(fs));
}

/// Reads the payload of a SUBSCRIBE packet.
fn read_topic_filters(stream: &mut &[u8]) -> (res: Result<Vec<TopicFilter>, MqttError>)
    ensures
        ({
            let (r, rest) = subscribe_payload_read(old(stream)@);
            &&& final(stream)@ == rest
            &&& match res {
                Ok(v) => r == Ok::<Seq<(Seq<char>, u8)>, MqttError>(topic_filters_view(v@)),
                Err(e) => r == Err::<Seq<(Seq<char>, u8)>, MqttError>(e),
            }
        }),
{
    let ghost s0 = stream@;
    let topic_filters_len = read_two_byte_integer(stream)?;
    let ghost s1 = stream@;
    let mut topic_filters: Vec<TopicFilter> = Vec::new();
    let mut i: u16 = 0;
    assert(topic_filters_view(topic_filters@) =~= Seq::<(Seq<char>, u8)>::empty());
    while i < topic_filters_len
        invariant
            0 <= i <= topic_filters_len,
            subscribe_payload_read(old(stream)@) == topic_filters_read(s1, topic_filters_len as nat),
            topic_filters_read(s1, i as nat) == (
                Ok::<Seq<(Seq<char>, u8)>, MqttError>(topic_filters_view(topic_filters@)),
                stream@,
            ),
        decreases topic_filters_len - i,
    {
        let ghost before_text = stream@;
        let topic_filter = match read_text(stream) {
            Ok(t) => t,
            Err(e) => {
                proof {
                    assert(data_types::read_text_spec(before_text).0 == Err::<Seq<char>, MqttError>(e));
                    assert(topic_filters_read(s1, (i + 1) as nat).0 is Err);
                    lemma_topic_filters_read_err(s1, (i + 1) as nat, topic_filters_len as nat);
                }
                return Err(e);
            },
        };
        let ghost before_byte = stream@;
        let subscription_options = match read_byte(stream) {
            Ok(o) => o,
            Err(e) => {
                proof {
                    assert(data_types::read_byte_spec(before_byte).0 == Err::<u8, MqttError>(e));
                    assert(topic_filters_read(s1, (i + 1) as nat).0 is Err);
                    lemma_topic_filters_read_err(s1, (i + 1) as nat, topic_filters_len as nat);
                }
                return Err(e);
            },
        };
        let ghost before = topic_filters@;
        topic_filters.push(TopicFilter { topic_filter, subscription_options });
        assert(topic_filters_view(topic_filters@) =~= topic_filters_view(before).push(
            (topic_filters@.last().topic_filter@, subscription_options),
        ));
        i += 1;
    }
    Ok(topic_filters)
}

/// The number of bytes of the payload of a SUBSCRIBE packet.
fn topic_filters_size(topic_filters: &Vec<TopicFilter>) -> (res: u32)
    requires
        subscribe_payload_bytes(topic_filters_view(topic_filters@)).len() <= u32::MAX,
    ensures
        res == subscribe_payload_bytes(topic_filters_view(topic_filters@)).len(),
{
    let ghost fs = topic_filters_view(topic_filters@);
    let mut size: u32 = 2;
    let mut i: usize = 0;
    while i < topic_filters.len()
        invariant
            0 <= i <= topic_filters@.len(),
            fs == topic_filters_view(topic_filters@),
            2 + topic_filters_bytes(fs).len() <= u32::MAX,
            size == 2 + topic_filters_bytes(fs.take(i as int)).len(),
        decreases topic_filters@.len() - i,
    {
        proof {
            lemma_topic_filters_step(fs, i as int);
            lemma_topic_filters_prefix_len(fs, i + 1);
        }
        size = size + 2 + string_len(&topic_filters[i].topic_filter) as u32 + 1;
        i += 1;
    }
    assert(fs.take(fs.len() as int) =~= fs);
    size
}

/// A copy of a list of topic filters.
fn clone_topic_filters(topic_filters: &Vec<TopicFilter>) -> (res: Vec<TopicFilter>)
    ensures
        topic_filters_view(res@) == topic_filters_view(topic_filters@),
{
    let mut res: Vec<TopicFilter> = Vec::new();
    let mut i: usize = 0;
    while i < topic_filters.len()
        invariant
            0 <= i <= topic_filters@.len(),
            res@.len() == i,
            forall|j: int|
                0 <= j < i ==> (#[trigger] res@[j]).topic_filter@ == topic_filters@[j].topic_filter@
                    && res@[j].subscription_options == topic_filters@[j].subscription_options,
        decreases topic_filters@.len() - i,
    {
        res.push(topic_filters[i].clone());
        i += 1;
    }
    assert(topic_filters_view(res@) =~= topic_filters_view(topic_filters@));
    res
}

/// The variable header and payload of a SUBSCRIBE packet: the packet identifier, the optional
/// properties, and the topic filters.
pub struct SubscribeProperties {
    pub packet_identifier: u16,
    pub subscription_identifier: Option<u32>,
    pub user_property: Option<(String, String)>,
    pub topic_filters: Vec<TopicFilter>,
}

/// The mathematical value of [`SubscribeProperties`].
pub struct SubscribePropertiesView {
    pub packet_identifier: u16,
    pub subscription_identifier: Option<u32>,
    pub user_property: Option<(Seq<char>, Seq<char>)>,
    pub topic_filters: Seq<(Seq<char>, u8)>,
}

impl View for SubscribeProperties {
    type V = SubscribePropertiesView;

    open spec fn view(&self) -> SubscribePropertiesView {
        SubscribePropertiesView {
            packet_identifier: self.packet_identifier,
            subscription_identifier: self.subscription_identifier,
            user_property: packet_property::opt_pair_view(self.user_property),
            topic_filters: topic_filters_view(self.topic_filters@),
        }
    }
}

/// The properties of the header, in the order they are written: each field fills the
/// slot of its identifier.
pub open spec fn subscribe_properties_slots(v: SubscribePropertiesView) -> Seq<Slot> {
    seq![
        (SUBSCRIPTION_IDENTIFIER, property_model::opt_vbi(v.subscription_identifier)),
        (USER_PROPERTY, property_model::opt_pair(v.user_property)),
    ]
}

/// The bytes of the header: the packet identifier, the properties block, then the topic filters.
pub open spec fn subscribe_properties_bytes(v: SubscribePropertiesView) -> Seq<u8> {
    let ps = property_model::slot_list(subscribe_properties_slots(v));
    data_types::be16(v.packet_identifier as int) + variable_header_properties::properties_block_bytes(property_model::properties_bytes(ps).len() as u16, ps) + subscribe_payload_bytes(v.topic_filters)
}

/// The header that the fixed fields and the decoded properties give, with the payload,: each
/// optional field takes the last property with its identifier.
pub open spec fn subscribe_properties_from(packet_identifier: u16, ps: Seq<PropertyModel>, payload: Seq<(Seq<char>, u8)>) -> Result<SubscribePropertiesView, MqttError> {
    Ok(
        SubscribePropertiesView {
            packet_identifier: packet_identifier,
            subscription_identifier: property_model::as_vbi(property_model::last_with_id(ps, SUBSCRIPTION_IDENTIFIER)),
            user_property: property_model::as_pair(property_model::last_with_id(ps, USER_PROPERTY)),
            topic_filters: payload,
        },
    )
}

/// Reading the header from a stream.
pub open spec fn subscribe_properties_read(s: Seq<u8>) -> (Result<SubscribePropertiesView, MqttError>, Seq<u8>) {
    let (r0, s0) = data_types::read_u16_spec(s);
    match r0 {
        Err(e) => (Err(e), s0),
        Ok(packet_identifier) => {
            let (b, sb) = variable_header_properties::properties_block_read(s0);
            match b {
                Err(e) => (Err(e), sb),
                Ok((_, ps)) => {
                    let (pl, sp) = subscribe_payload_read(sb);
                    match pl {
                        Err(e) => (Err(e), sp),
                        Ok(payload) => (subscribe_properties_from(packet_identifier, ps, payload), sp),
                    }
                },
            }
        },
    }
}

/// Reading the header from this stream does not hit a decoding panic.
pub open spec fn subscribe_properties_safe(s: Seq<u8>) -> bool {
    let (r0, s0) = data_types::read_u16_spec(s);
    r0 is Ok ==> {
        variable_header_properties::properties_block_safe(s0)
    }
}

/// The header can be written: its properties fit in one block, and its strings and payload fit their length prefixes.
pub open spec fn subscribe_properties_fit(v: SubscribePropertiesView) -> bool {
    &&& property_model::slots_fit(subscribe_properties_slots(v))
    &&& topic_filters_fit(v.topic_filters)
}

pub open spec fn subscribe_properties_result(r: Result<SubscribeProperties, MqttError>) -> Result<SubscribePropertiesView, MqttError> {
    match r {
        Ok(x) => Ok(x@),
        Err(e) => Err(e),
    }
}

impl Clone for SubscribeProperties {
    fn clone(&self) -> (res: Self)
        ensures
            res@ == self@,
    {
        SubscribeProperties {
            packet_identifier: self.packet_identifier,
            subscription_identifier: self.subscription_identifier,
            user_property: clone_opt_pair(&self.user_property),
            topic_filters: clone_topic_filters(&self.topic_filters),
        }
    }
}

impl Default for SubscribeProperties {
    fn default() -> (res: Self)
        ensures
            res@.packet_identifier == 0,
            res@.subscription_identifier is None,
            res@.user_property is None,
            res@.topic_filters == Seq::<(Seq<char>, u8)>::empty(),
    {
        SubscribeProperties {
            packet_identifier: 0,
            subscription_identifier: None,
            user_property: None,
            topic_filters: Vec::new(),
        }
    }
}

impl SubscribeProperties {
    /// The properties block of the header.
    pub fn as_variable_header_properties(&self) -> (res: Result<VariableHeaderProperties, MqttError>)
        requires
            property_model::slots_fit(subscribe_properties_slots(self@)),
        ensures
            res matches Ok(b) && b.wf() && b.models() == property_model::slot_list(subscribe_properties_slots(self@)),
    {
        let ghost slots = subscribe_properties_slots(self@);
        assert(property_model::slots_typed(PropertyTable::Current, slots));
        let mut variable_props = VariableHeaderProperties::for_slots(Ghost(slots));
        variable_props.put_vbi(SUBSCRIPTION_IDENTIFIER, self.subscription_identifier, Ghost(slots), Ghost(0));
        variable_props.put_pair(USER_PROPERTY, &self.user_property, Ghost(slots), Ghost(1));
        proof {
            variable_header_properties::lemma_holds_all_slots(&variable_props, slots);
        }
        Ok(variable_props)
    }

    /// The number of bytes of the header.
    pub fn size_of(&self) -> (res: u32)
        requires
            subscribe_properties_fit(self@),
            subscribe_properties_bytes(self@).len() <= u32::MAX,
        ensures
            res == subscribe_properties_bytes(self@).len(),
    {
        let variable_props = match self.as_variable_header_properties() {
            Ok(v) => v,
            Err(_) => {
                return 0;
            },
        };
        2 + variable_props.size_of() + topic_filters_size(&self.topic_filters)
    }

    /// The bytes of the header.
    pub fn as_bytes(&self) -> (res: Result<Vec<u8>, MqttError>)
        requires
            subscribe_properties_fit(self@),
        ensures
            res matches Ok(b) && b@ == subscribe_properties_bytes(self@),
    {
        let mut bytes: Vec<u8> = Vec::new();
        let variable_header_properties = self.as_variable_header_properties()?;
        push_u16(&mut bytes, self.packet_identifier);
        let block = variable_header_properties.as_bytes();
        append_bytes(&mut bytes, block.as_slice());
        write_topic_filters(&mut bytes, &self.topic_filters);
        assert(bytes@ =~= subscribe_properties_bytes(self@));
        Ok(bytes)
    }

    /// Reads the header from a stream.
    pub fn read_from(stream: &mut &[u8]) -> (res: Result<Self, MqttError>)
        requires
            subscribe_properties_safe(old(stream)@),
        ensures
            (subscribe_properties_result(res), final(stream)@) == subscribe_properties_read(old(stream)@),
    {
        let packet_identifier = read_two_byte_integer(stream)?;
        let variable_header_properties = VariableHeaderProperties::read_from(stream)?;
        let ghost ps = variable_header_properties.models();
        let mut subscription_identifier = None;
        let mut user_property = None;
        let mut i: usize = 0;
        while i < variable_header_properties.properties.len()
            invariant
                0 <= i <= ps.len(),
                ps == variable_header_properties.models(),
                subscription_identifier == property_model::as_vbi(property_model::last_with_id(ps.take(i as int), SUBSCRIPTION_IDENTIFIER)),
                packet_property::opt_pair_view(user_property) == property_model::as_pair(property_model::last_with_id(ps.take(i as int), USER_PROPERTY)),
            decreases ps.len() - i,
        {
            let property = &variable_header_properties.properties[i];
            proof {
                property_model::lemma_last_with_id_step(ps, i as int, SUBSCRIPTION_IDENTIFIER);
                property_model::lemma_last_with_id_step(ps, i as int, USER_PROPERTY);
            }
            let id = property.id();
            if id == SUBSCRIPTION_IDENTIFIER {
                subscription_identifier = property.value_variable_byte_integer();
            } else if id == USER_PROPERTY {
                user_property = property.value_string_pair();
            }
            i += 1;
        }
        proof {
            property_model::lemma_take_all(ps);
        }
        let topic_filters = read_topic_filters(stream)?;
        Ok(SubscribeProperties {
            packet_identifier,
            subscription_identifier,
            user_property,
            topic_filters,
        })
    }
}

/// The slots of the header carry the kinds their identifiers take, no two share an
/// identifier, and decoding their properties gives the header back.
proof fn lemma_subscribe_properties_slots(v: SubscribePropertiesView)
    ensures
        property_model::slots_typed(PropertyTable::Current, subscribe_properties_slots(v)),
        property_model::slots_distinct(subscribe_properties_slots(v)),
        subscribe_properties_from(v.packet_identifier, property_model::slot_list(subscribe_properties_slots(v)), v.topic_filters) == Ok::<SubscribePropertiesView, MqttError>(v),
{
    let slots = subscribe_properties_slots(v);
    let ps = property_model::slot_list(slots);
    assert(property_model::slots_typed(PropertyTable::Current, slots));
    assert(property_model::slots_distinct(slots));
    property_model::lemma_slot_lookup(slots, 0);
    assert(property_model::as_vbi(property_model::last_with_id(ps, SUBSCRIPTION_IDENTIFIER)) == v.subscription_identifier);
    property_model::lemma_slot_lookup(slots, 1);
    assert(property_model::as_pair(property_model::last_with_id(ps, USER_PROPERTY)) == v.user_property);
}

/// Reading back the bytes of a header that can be written gives the header back, and
/// leaves what follows.
#[verifier::spinoff_prover]
#[verifier::rlimit(30)]
pub proof fn lemma_subscribe_properties_roundtrip(v: SubscribePropertiesView, rest: Seq<u8>)
    requires
        subscribe_properties_fit(v),
    ensures
        subscribe_properties_read(subscribe_properties_bytes(v) + rest) == (Ok::<SubscribePropertiesView, MqttError>(v), rest),
        subscribe_properties_safe(subscribe_properties_bytes(v) + rest),
{
    let slots = subscribe_properties_slots(v);
    let ps = property_model::slot_list(slots);
    let block = variable_header_properties::properties_block_bytes(property_model::properties_bytes(ps).len() as u16, ps);
    lemma_subscribe_properties_slots(v);
    property_model::lemma_slots_encodable(PropertyTable::Current, slots);
    let tail = subscribe_payload_bytes(v.topic_filters) + rest;
    lemma_subscribe_payload_roundtrip(v.topic_filters, rest);
    variable_header_properties::lemma_properties_block_roundtrip(property_model::properties_bytes(ps).len() as u16, ps, tail);
    data_types::lemma_read_u16_prefix(v.packet_identifier, block + tail);
    assert(subscribe_properties_bytes(v) + rest =~= data_types::be16(v.packet_identifier as int) + (block + tail));
}

impl SubscribeProperties {
    /// Adds a topic filter with its subscription options: the maximum QoS in bits 0 and 1,
    /// No Local in bit 2, Retain As Published in bit 3 and Retain Handling from bit 4 on
    /// (bits shifted past the byte are dropped).
    pub fn add_topic_filter(
        &mut self,
        topic_filter: String,
        max_qos: u8,
        no_local_option: bool,
        retain_as_published: bool,
        retain_handling: u8,
    )
        ensures
            final(self).packet_identifier == old(self).packet_identifier,
            final(self).subscription_identifier == old(self).subscription_identifier,
            final(self).user_property == old(self).user_property,
            final(self).topic_filters@ == old(self).topic_filters@.push(
                TopicFilter {
                    topic_filter,
                    subscription_options: subscription_options(
                        max_qos,
                        no_local_option,
                        retain_as_published,
                        retain_handling,
                    ),
                },
            ),
            max_qos <= 3 && retain_handling <= 3 ==> {
                let o = final(self).topic_filters@.last().subscription_options;
                &&& flags_handler::flag_bits(o, 0, 2) == max_qos
                &&& flags_handler::flag_bits(o, 2, 1) == (if no_local_option { 1u8 } else { 0u8 })
                &&& flags_handler::flag_bits(o, 3, 1) == (if retain_as_published { 1u8 } else { 0u8 })
                &&& flags_handler::flag_bits(o, 4, 2) == retain_handling
                &&& o < 64
            },
    {
        proof {
            if max_qos <= 3 && retain_handling <= 3 {
                lemma_subscription_options_read_back(max_qos, no_local_option, retain_as_published, retain_handling);
            }
        }
        let mut subscription_options: u8 = 0;
        subscription_options |= max_qos;
        assert(0u8 | max_qos == max_qos) by (bit_vector);
        assert(1u8 << 2u8 == 4u8 && 1u8 << 3u8 == 8u8) by (bit_vector);
        if no_local_option {
            subscription_options |= 1 << 2;
        }
        if retain_as_published {
            subscription_options |= 1 << 3;
        }
        subscription_options |= retain_handling << 4;
        self.topic_filters.push(TopicFilter { topic_filter, subscription_options });
    }
}

/// The subscription options byte carries the maximum QoS in bits 0 and 1, No Local in bit 2,
/// Retain As Published in bit 3 and Retain Handling in bits 4 and 5: each reads back, through
/// the subscription flag getters, as the value it was built from, and bits 6 and 7 are clear.
pub proof fn lemma_subscription_options_read_back(
    max_qos: u8,
    no_local_option: bool,
    retain_as_published: bool,
    retain_handling: u8,
)
    requires
        max_qos <= 3,
        retain_handling <= 3,
    ensures
        ({
            let o = subscription_options(max_qos, no_local_option, retain_as_published, retain_handling);
            &&& flags_handler::flag_bits(o, 0, 2) == max_qos
            &&& flags_handler::flag_bits(o, 2, 1) == (if no_local_option { 1u8 } else { 0u8 })
            &&& flags_handler::flag_bits(o, 3, 1) == (if retain_as_published { 1u8 } else { 0u8 })
            &&& flags_handler::flag_bits(o, 4, 2) == retain_handling
            &&& o < 64
        }),
{
    let n: u8 = if no_local_option { 1 } else { 0 };
    let r: u8 = if retain_as_published { 1 } else { 0 };
    let o = subscription_options(max_qos, no_local_option, retain_as_published, retain_handling);
    assert(max_qos | 4u8 == max_qos | (1u8 << 2u8) && max_qos | 0u8 == max_qos) by (bit_vector);
    assert(o == ((max_qos | (n << 2u8)) | (r << 3u8)) | (retain_handling << 4u8)) by {
        assert(forall|x: u8| #![auto] x | 8u8 == x | (1u8 << 3u8)) by (bit_vector);
        assert(forall|x: u8| #![auto] x | (0u8 << 3u8) == x) by (bit_vector);
        assert(forall|x: u8| #![auto] x | (0u8 << 2u8) == x) by (bit_vector);
        assert(forall|x: u8| #![auto] x | 4u8 == x | (1u8 << 2u8)) by (bit_vector);
    }
    assert(max_qos <= 3 && retain_handling <= 3 && n <= 1 && r <= 1 ==> {
        let b = ((max_qos | (n << 2u8)) | (r << 3u8)) | (retain_handling << 4u8);
        &&& ((b >> 0u8) & 3u8) == max_qos
        &&& ((b >> 2u8) & 1u8) == n
        &&& ((b >> 3u8) & 1u8) == r
        &&& ((b >> 4u8) & 3u8) == retain_handling
        &&& b < 64u8
    }) by (bit_vector);
}

/// The subscription options byte of a topic filter.
pub open spec fn subscription_options(
    max_qos: u8,
    no_local_option: bool,
    retain_as_published: bool,
    retain_handling: u8,
) -> u8 {
    let with_no_local = if no_local_option {
        max_qos | 4u8
    } else {
        max_qos
    };
    let with_retain = if retain_as_published {
        with_no_local | 8u8
    } else {
        with_no_local
    };
    with_retain | (retain_handling << 4u8)
}

/// Each field of the SUBSCRIBE header is written as the property with its own MQTT 5
/// identifier: Subscription Identifier 0x0B and User Property 0x26.
pub proof fn lemma_subscribe_property_identifiers(v: SubscribePropertiesView)
    ensures
        ({
            let ps = property_model::slot_list(subscribe_properties_slots(v));
            &&& property_model::as_vbi(property_model::last_with_id(ps, 0x0Bu8)) == v.subscription_identifier
            &&& property_model::as_pair(property_model::last_with_id(ps, 0x26u8)) == v.user_property
        }),
{
    lemma_subscribe_properties_slots(v);
}

/// The SUBSCRIBE variable header starts with the packet identifier, high byte first.
pub proof fn lemma_subscribe_header_layout(v: SubscribePropertiesView)
    ensures
        subscribe_properties_bytes(v)[0] as int * 256 + subscribe_properties_bytes(v)[1] as int == v.packet_identifier as int,
{
}

} // verus!
