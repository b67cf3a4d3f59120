use vstd::prelude::*;
use vstd::utf8::*;

use crate::common::data_types::{read_byte, read_text, read_two_byte_integer, string_len, MqttError};
use crate::common::data_types;
use crate::control_packets::mqtt_packet::packet_property::{append_bytes, clone_opt_pair, clone_opt_string, opt_bytes_to_string, push_text, push_u16, USER_PROPERTY};
use crate::control_packets::mqtt_packet::packet_property;
use crate::control_packets::mqtt_packet::property_model::{PropertyModel, PropertyTable, Slot};
use crate::control_packets::mqtt_packet::property_model;
use crate::control_packets::mqtt_packet::variable_header_properties::VariableHeaderProperties;
use crate::control_packets::mqtt_packet::variable_header_properties;

verus! {

broadcast use {vstd::utf8::encode_utf8_valid_utf8, vstd::utf8::encode_utf8_decode_utf8};

/// The value of a list of topic filters.
pub open spec fn topic_names_view(fs: Seq<String>) -> Seq<Seq<char>> {
    fs.map_values(|f: String| f@)
}

/// The bytes of a list of topic filters, each a length-prefixed string.
pub closed spec fn topic_names_bytes(fs: Seq<Seq<char>>) -> Seq<u8>
    decreases fs.len(),
{
    if fs.len() == 0 {
        Seq::empty()
    } else {
        topic_names_bytes(fs.drop_last()) + data_types::text_bytes(fs.last())
    }
}

/// The payload of an UNSUBSCRIBE packet: the number of topic filters, then the filters.
pub open spec fn unsubscribe_payload_bytes(fs: Seq<Seq<char>>) -> Seq<u8> {
    data_types::be16(fs.len() as int) + topic_names_bytes(fs)
}

/// Reading `n` topic filters from a stream.
pub open spec fn topic_names_read(s: Seq<u8>, n: nat) -> (Result<Seq<Seq<char>>, MqttError>, Seq<u8>)
    decreases n,
{
    if n == 0 {
        (Ok(Seq::empty()), s)
    } else {
        let (r, s1) = topic_names_read(s, (n - 1) as nat);
        match r {
            Err(e) => (Err(e), s1),
            Ok(fs) => {
                let (t, s2) = data_types::read_text_spec(s1);
                match t {
                    Err(e) => (Err(e), s2),
                    Ok(name) => (Ok(fs.push(name)), s2),
                }
            },
        }
    }
}

/// Reading the payload of an UNSUBSCRIBE packet: the number of filters, then the filters.
pub open spec fn unsubscribe_payload_read(s: Seq<u8>) -> (Result<Seq<Seq<char>>, MqttError>, Seq<u8>) {
    let (c, s1) = data_types::read_u16_spec(s);
    match c {
        Err(e) => (Err(e), s1),
        Ok(n) => topic_names_read(s1, n as nat),
    }
}

/// The filters can be written: their number fits in two bytes, and each fits its length
/// prefix.
pub open spec fn topic_names_fit(fs: Seq<Seq<char>>) -> bool {
    &&& fs.len() <= u16::MAX
    &&& forall|i: int| 0 <= i < fs.len() ==> encode_utf8(#[trigger] fs[i]).len() <= u16::MAX
}

proof fn lemma_topic_names_step(fs: Seq<Seq<char>>, i: int)
    requires
        0 <= i < fs.len(),
    ensures
        topic_names_bytes(fs.take(i + 1)) == topic_names_bytes(fs.take(i)) + data_types::text_bytes(fs[i]),
{
    assert(fs.take(i + 1).drop_last() =~= fs.take(i));
}

proof fn lemma_topic_names_prefix_len(fs: Seq<Seq<char>>, i: int)
    requires
        0 <= i <= fs.len(),
    ensures
        topic_names_bytes(fs.take(i)).len() <= topic_names_bytes(fs).len(),
    decreases fs.len() - i,
{
    if i < fs.len() {
        lemma_topic_names_step(fs, i);
        lemma_topic_names_prefix_len(fs, i + 1);
    } else {
        assert(fs.take(i) =~= fs);
    }
}

/// Once reading topic filters fails, reading more of them fails in the same way.
proof fn lemma_topic_names_read_err(s: Seq<u8>, k: nat, n: nat)
    requires
        k <= n,
        topic_names_read(s, k).0 is Err,
    ensures
        topic_names_read(s, n) == topic_names_read(s, k),
    decreases n - k,
{
    if k < n {
        lemma_topic_names_read_err(s, k, (n - 1) as nat);
    }
}

/// Reading back the bytes of filters that fit gives the filters back, and leaves what
/// follows.
#[verifier::spinoff_prover]
#[verifier::rlimit(30)]
pub proof fn lemma_topic_names_roundtrip(fs: Seq<Seq<char>>, rest: Seq<u8>)
    requires
        forall|i: int| 0 <= i < fs.len() ==> encode_utf8(#[trigger] fs[i]).len() <= u16::MAX,
    ensures
        topic_names_read(topic_names_bytes(fs) + rest, fs.len()) == (
            Ok::<Seq<Seq<char>>, MqttError>(fs),
            rest,
        ),
    decreases fs.len(),
{
    if fs.len() > 0 {
        let init = fs.drop_last();
        let last = fs.last();
        let tail = data_types::text_bytes(last) + rest;
        assert forall|i: int| 0 <= i < init.len() implies encode_utf8(#[trigger] init[i]).len()
            <= u16::MAX by {
            assert(init[i] == fs[i]);
        }
        assert(fs[fs.len() - 1] == last);
        assert(encode_utf8(fs[fs.len() - 1]).len() <= u16::MAX);
        lemma_topic_names_roundtrip(init, tail);
        assert(init.len() == (fs.len() - 1) as nat);
        assert(topic_names_bytes(fs) + rest =~= topic_names_bytes(init) + tail);
        data_types::lemma_read_text_prefix(last, rest);
        assert(init.push(last) =~= fs);
    } else {
        assert(topic_names_bytes(fs) + rest =~= rest);
        assert(fs =~= Seq::<Seq<char>>::empty());
    }
}

/// Reading back the payload of filters that fit gives the filters back.
#[verifier::spinoff_prover]
#[verifier::rlimit(30)]
pub proof fn lemma_unsubscribe_payload_roundtrip(fs: Seq<Seq<char>>, rest: Seq<u8>)
    requires
        topic_names_fit(fs),
    ensures
        unsubscribe_payload_read(unsubscribe_payload_bytes(fs) + rest) == (
            Ok::<Seq<Seq<char>>, MqttError>(fs),
            rest,
        ),
{
    let n = fs.len() as u16;
    assert(unsubscribe_payload_bytes(fs) + rest =~= data_types::be16(n as int) + (topic_names_bytes(fs) + rest));
    data_types::lemma_read_u16_prefix(n, topic_names_bytes(fs) + rest);
    lemma_topic_names_roundtrip(fs, rest);
}

/// Appends the payload of an UNSUBSCRIBE packet: the number of filters, then the filters.
fn write_topic_names(bytes: &mut Vec<u8>, topic_filters: &Vec<String>)
    requires
        topic_filters@.len() <= u16::MAX,
    ensures
        final(bytes)@ == old(bytes)@ + unsubscribe_payload_bytes(topic_names_view(topic_filters@)),
{
    let ghost fs = topic_names_view(topic_filters@);
    push_u16(bytes, topic_filters.len() as u16);
    let ghost start = bytes@;
    let mut i: usize = 0;
    while i < topic_filters.len()
        invariant
            0 <= i <= topic_filters@.len(),
            fs == topic_names_view(topic_filters@),
            bytes@ == start + topic_names_bytes(fs.take(i as int)),
        decreases topic_filters@.len() - i,
    {
        proof {
            lemma_topic_names_step(fs, i as int);
        }
        push_text(bytes, &topic_filters[i]);
        assert(bytes@ =~= start + topic_names_bytes(fs.take(i + 1)));
        i += 1;
    }
    assert(fs.take(fs.len() as int) =~= fs);
    assert(old(bytes)@ + unsubscribe_payload_bytes(fs) =~= start + topic_names_bytes(fs));
}

/// Reads the payload of an UNSUBSCRIBE packet.
fn read_topic_names(stream: &mut &[u8]) -> (res: Result<Vec<String>, MqttError>)
    ensures
        ({
            let (r, rest) = unsubscribe_payload_read(old(stream)@);
            &&& final(stream)@ == rest
            &&& match res {
                Ok(v) => r == Ok::<Seq<Seq<char>>, MqttError>(topic_names_view(v@)),
                Err(e) => r == Err::<Seq<Seq<char>>, MqttError>(e),
            }
        }),
{
    let topic_filters_len = read_two_byte_integer(stream)?;
    let ghost s1 = stream@;
    let mut topic_filters: Vec<String> = Vec::new();
    let mut i: u16 = 0;
    assert(topic_names_view(topic_filters@) =~= Seq::<Seq<char>>::empty());
    while i < topic_filters_len
        invariant
            0 <= i <= topic_filters_len,
            unsubscribe_payload_read(old(stream)@) == topic_names_read(s1, topic_filters_len as nat),
            topic_names_read(s1, i as nat) == (
                Ok::<Seq<Seq<char>>, MqttError>(topic_names_view(topic_filters@)),
                stream@,
            ),
        decreases topic_filters_len - i,
    {
        let ghost before_text = stream@;
        let topic_filter = match read_text(stream) {
            Ok(t) => t,
            Err(e) => {
                proof {
                    assert(data_types::read_text_spec(before_text).0 == Err::<Seq<char>, MqttError>(e));
                    assert(topic_names_read(s1, (i + 1) as nat).0 is Err);
                    lemma_topic_names_read_err(s1, (i + 1) as nat, topic_filters_len as nat);
                }
                return Err(e);
            },
        };
        let ghost before = topic_filters@;
        topic_filters.push(topic_filter);
        assert(topic_names_view(topic_filters@) =~= topic_names_view(before).push(
            topic_filters@.last()@,
        ));
        i += 1;
    }
    Ok(topic_filters)
}

/// The number of bytes of the payload of an UNSUBSCRIBE packet.
fn topic_names_size(topic_filters: &Vec<String>) -> (res: u32)
    requires
        unsubscribe_payload_bytes(topic_names_view(topic_filters@)).len() <= u32::MAX,
    ensures
        res == unsubscribe_payload_bytes(topic_names_view(topic_filters@)).len(),
{
    let ghost fs = topic_names_view(topic_filters@);
    let mut size: u32 = 2;
    let mut i: usize = 0;
    while i < topic_filters.len()
        invariant
            0 <= i <= topic_filters@.len(),
            fs == topic_names_view(topic_filters@),
            2 + topic_names_bytes(fs).len() <= u32::MAX,
            size == 2 + topic_names_bytes(fs.take(i as int)).len(),
        decreases topic_filters@.len() - i,
    {
        proof {
            lemma_topic_names_step(fs, i as int);
            lemma_topic_names_prefix_len(fs, i + 1);
        }
        size = size + 2 + string_len(&topic_filters[i]) as u32;
        i += 1;
    }
    assert(fs.take(fs.len() as int) =~= fs);
    size
}

/// A copy of a list of topic filters.
fn clone_topic_names(topic_filters: &Vec<String>) -> (res: Vec<String>)
    ensures
        topic_names_view(res@) == topic_names_view(topic_filters@),
{
    let mut res: Vec<String> = Vec::new();
    let mut i: usize = 0;
    while i < topic_filters.len()
        invariant
            0 <= i <= topic_filters@.len(),
            res@.len() == i,
            forall|j: int| 0 <= j < i ==> (#[trigger] res@[j])@ == topic_filters@[j]@,
        decreases topic_filters@.len() - i,
    {
        res.push(topic_filters[i].clone());
        i += 1;
    }
    assert(topic_names_view(res@) =~= topic_names_view(topic_filters@));
    res
}

/// The variable header and payload of an UNSUBSCRIBE packet: the packet identifier, the
/// optional properties, and the topic filters to unsubscribe from.
pub struct UnsubscribeProperties {
    pub packet_identifier: u16,
    pub user_property: Option<(String, String)>,
    pub topic_filters: Vec<String>,
}

/// The mathematical value of [`UnsubscribeProperties`].
pub struct UnsubscribePropertiesView {
    pub packet_identifier: u16,
    pub user_property: Option<(Seq<char>, Seq<char>)>,
    pub topic_filters: Seq<Seq<char>>,
}

impl View for UnsubscribeProperties {
    type V = UnsubscribePropertiesView;

    open spec fn view(&self) -> UnsubscribePropertiesView {
        UnsubscribePropertiesView {
            packet_identifier: self.packet_identifier,
            user_property: packet_property::opt_pair_view(self.user_property),
            topic_filters: topic_names_view(self.topic_filters@),
        }
    }
}

/// The properties of the header, in the order they are written: each field fills the
/// slot of its identifier.
pub open spec fn unsubscribe_properties_slots(v: UnsubscribePropertiesView) -> Seq<Slot> {
    seq![
        (USER_PROPERTY, property_model::opt_pair(v.user_property)),
    ]
}

/// The bytes of the header: the packet identifier, the properties block, then the topic filters.
pub open spec fn unsubscribe_properties_bytes(v: UnsubscribePropertiesView) -> Seq<u8> {
    let ps = property_model::slot_list(unsubscribe_properties_slots(v));
    data_types::be16(v.packet_identifier as int) + variable_header_properties::properties_block_bytes(property_model::properties_bytes(ps).len() as u16, ps) + unsubscribe_payload_bytes(v.topic_filters)
}

/// The header that the fixed fields and the decoded properties give, with the payload,: each
/// optional field takes the last property with its identifier.
pub open spec fn unsubscribe_properties_from(packet_identifier: u16, ps: Seq<PropertyModel>, payload: Seq<Seq<char>>) -> Result<UnsubscribePropertiesView, MqttError> {
    Ok(
        UnsubscribePropertiesView {
            packet_identifier: packet_identifier,
            user_property: property_model::as_pair(property_model::last_with_id(ps, USER_PROPERTY)),
            topic_filters: payload,
        },
    )
}

/// Reading the header from a stream.
pub open spec fn unsubscribe_properties_read(s: Seq<u8>) -> (Result<UnsubscribePropertiesView, MqttError>, Seq<u8>) {
    let (r0, s0) = data_types::read_u16_spec(s);
    match r0 {
        Err(e) => (Err(e), s0),
        Ok(packet_identifier) => {
            let (b, sb) = variable_header_properties::properties_block_read(s0);
            match b {
                Err(e) => (Err(e), sb),
                Ok((_, ps)) => {
                    let (pl, sp) = unsubscribe_payload_read(sb);
                    match pl {
                        Err(e) => (Err(e), sp),
                        Ok(payload) => (unsubscribe_properties_from(packet_identifier, ps, payload), sp),
                    }
                },
            }
        },
    }
}

/// Reading the header from this stream does not hit a decoding panic.
pub open spec fn unsubscribe_properties_safe(s: Seq<u8>) -> bool {
    let (r0, s0) = data_types::read_u16_spec(s);
    r0 is Ok ==> {
        variable_header_properties::properties_block_safe(s0)
    }
}

/// The header can be written: its properties fit in one block, and its strings and payload fit their length prefixes.
pub open spec fn unsubscribe_properties_fit(v: UnsubscribePropertiesView) -> bool {
    &&& property_model::slots_fit(unsubscribe_properties_slots(v))
    &&& topic_names_fit(v.topic_filters)
}

pub open spec fn unsubscribe_properties_result(r: Result<UnsubscribeProperties, MqttError>) -> Result<UnsubscribePropertiesView, MqttError> {
    match r {
        Ok(x) => Ok(x@),
        Err(e) => Err(e),
    }
}

impl Clone for UnsubscribeProperties {
    fn clone(&self) -> (res: Self)
        ensures
            res@ == self@,
    {
        UnsubscribeProperties {
            packet_identifier: self.packet_identifier,
            user_property: clone_opt_pair(&self.user_property),
            topic_filters: clone_topic_names(&self.topic_filters),
        }
    }
}

impl Default for UnsubscribeProperties {
    fn default() -> (res: Self)
        ensures
            res@.packet_identifier == 0,
            res@.user_property is None,
            res@.topic_filters == Seq::<Seq<char>>::empty(),
    {
        UnsubscribeProperties {
            packet_identifier: 0,
            user_property: None,
            topic_filters: Vec::new(),
        }
    }
}

impl UnsubscribeProperties {
    /// The properties block of the header.
    pub fn as_variable_header_properties(&self) -> (res: Result<VariableHeaderProperties, MqttError>)
        requires
            property_model::slots_fit(unsubscribe_properties_slots(self@)),
        ensures
            res matches Ok(b) && b.wf() && b.models() == property_model::slot_list(unsubscribe_properties_slots(self@)),
    {
        let ghost slots = unsubscribe_properties_slots(self@);
        assert(property_model::slots_typed(PropertyTable::Current, slots));
        let mut variable_props = VariableHeaderProperties::for_slots(Ghost(slots));
        variable_props.put_pair(USER_PROPERTY, &self.user_property, Ghost(slots), Ghost(0));
        proof {
            variable_header_properties::lemma_holds_all_slots(&variable_props, slots);
        }
        Ok(variable_props)
    }

    /// The number of bytes of the header.
    pub fn size_of(&self) -> (res: u32)
        requires
            unsubscribe_properties_fit(self@),
            unsubscribe_properties_bytes(self@).len() <= u32::MAX,
        ensures
            res == unsubscribe_properties_bytes(self@).len(),
    {
        let variable_props = match self.as_variable_header_properties() {
            Ok(v) => v,
            Err(_) => {
                return 0;
            },
        };
        2 + variable_props.size_of() + topic_names_size(&self.topic_filters)
    }

    /// The bytes of the header.
    pub fn as_bytes(&self) -> (res: Result<Vec<u8>, MqttError>)
        requires
            unsubscribe_properties_fit(self@),
        ensures
            res matches Ok(b) && b@ == unsubscribe_properties_bytes(self@),
    {
        let mut bytes: Vec<u8> = Vec::new();
        let variable_header_properties = self.as_variable_header_properties()?;
        push_u16(&mut bytes, self.packet_identifier);
        let block = variable_header_properties.as_bytes();
        append_bytes(&mut bytes, block.as_slice());
        write_topic_names(&mut bytes, &self.topic_filters);
        assert(bytes@ =~= unsubscribe_properties_bytes(self@));
        Ok(bytes)
    }

    /// Reads the header from a stream.
    pub fn read_from(stream: &mut &[u8]) -> (res: Result<Self, MqttError>)
        requires
            unsubscribe_properties_safe(old(stream)@),
        ensures
            (unsubscribe_properties_result(res), final(stream)@) == unsubscribe_properties_read(old(stream)@),
    {
        let packet_identifier = read_two_byte_integer(stream)?;
        let variable_header_properties = VariableHeaderProperties::read_from(stream)?;
        let ghost ps = variable_header_properties.models();
        let mut user_property = None;
        let mut i: usize = 0;
        while i < variable_header_properties.properties.len()
            invariant
                0 <= i <= ps.len(),
                ps == variable_header_properties.models(),
                packet_property::opt_pair_view(user_property) == property_model::as_pair(property_model::last_with_id(ps.take(i as int), USER_PROPERTY)),
            decreases ps.len() - i,
        {
            let property = &variable_header_properties.properties[i];
            proof {
                property_model::lemma_last_with_id_step(ps, i as int, USER_PROPERTY);
            }
            let id = property.id();
            if id == USER_PROPERTY {
                user_property = property.value_string_pair();
            }
            i += 1;
        }
        proof {
            property_model::lemma_take_all(ps);
        }
        let topic_filters = read_topic_names(stream)?;
        Ok(UnsubscribeProperties {
            packet_identifier,
            user_property,
            topic_filters,
        })
    }
}

/// The slots of the header carry the kinds their identifiers take, no two share an
/// identifier, and decoding their properties gives the header back.
proof fn lemma_unsubscribe_properties_slots(v: UnsubscribePropertiesView)
    ensures
        property_model::slots_typed(PropertyTable::Current, unsubscribe_properties_slots(v)),
        property_model::slots_distinct(unsubscribe_properties_slots(v)),
        unsubscribe_properties_from(v.packet_identifier, property_model::slot_list(unsubscribe_properties_slots(v)), v.topic_filters) == Ok::<UnsubscribePropertiesView, MqttError>(v),
{
    let slots = unsubscribe_properties_slots(v);
    let ps = property_model::slot_list(slots);
    assert(property_model::slots_typed(PropertyTable::Current, slots));
    assert(property_model::slots_distinct(slots));
    property_model::lemma_slot_lookup(slots, 0);
    assert(property_model::as_pair(property_model::last_with_id(ps, USER_PROPERTY)) == v.user_property);
}

/// Reading back the bytes of a header that can be written gives the header back, and
/// leaves what follows.
#[verifier::spinoff_prover]
#[verifier::rlimit(30)]
pub proof fn lemma_unsubscribe_properties_roundtrip(v: UnsubscribePropertiesView, rest: Seq<u8>)
    requires
        unsubscribe_properties_fit(v),
    ensures
        unsubscribe_properties_read(unsubscribe_properties_bytes(v) + rest) == (Ok::<UnsubscribePropertiesView, MqttError>(v), rest),
        unsubscribe_properties_safe(unsubscribe_properties_bytes(v) + rest),
{
    let slots = unsubscribe_properties_slots(v);
    let ps = property_model::slot_list(slots);
    let block = variable_header_properties::properties_block_bytes(property_model::properties_bytes(ps).len() as u16, ps);
    lemma_unsubscribe_properties_slots(v);
    property_model::lemma_slots_encodable(PropertyTable::Current, slots);
    let tail = unsubscribe_payload_bytes(v.topic_filters) + rest;
    lemma_unsubscribe_payload_roundtrip(v.topic_filters, rest);
    variable_header_properties::lemma_properties_block_roundtrip(property_model::properties_bytes(ps).len() as u16, ps, tail);
    data_types::lemma_read_u16_prefix(v.packet_identifier, block + tail);
    assert(unsubscribe_properties_bytes(v) + rest =~= data_types::be16(v.packet_identifier as int) + (block + tail));
}

/// The field of the UNSUBSCRIBE header is written as the property with its own MQTT 5
/// identifier: User Property 0x26.
pub proof fn lemma_unsubscribe_property_identifiers(v: UnsubscribePropertiesView)
    ensures
        ({
            let ps = property_model::slot_list(unsubscribe_properties_slots(v));
            &&& property_model::as_pair(property_model::last_with_id(ps, 0x26u8)) == v.user_property
        }),
{
    lemma_unsubscribe_properties_slots(v);
}

/// The UNSUBSCRIBE variable header starts with the packet identifier, high byte first.
pub proof fn lemma_unsubscribe_header_layout(v: UnsubscribePropertiesView)
    ensures
        unsubscribe_properties_bytes(v)[0] as int * 256 + unsubscribe_properties_bytes(v)[1] as int == v.packet_identifier as int,
{
}

} // verus!
