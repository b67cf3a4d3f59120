use vstd::prelude::*;
use vstd::utf8::*;

use crate::common::data_types::{read_two_byte_integer, string_len, take_bytes, MqttError};
use crate::common::data_types;
use crate::control_packets::mqtt_packet::packet_property::push_u16;
use crate::control_packets::mqtt_packet::property_model::{
    ListStep, PropertyModel, PropertyTable, PropertyValue, ValueKind,
};
use crate::control_packets::mqtt_packet::property_model;
use crate::control_packets::mqtt_packet::variable_header_properties;
use crate::control_packets::mqtt_packet::variable_header_property::{
    VariableHeaderProperty, USER_PROPERTY,
};

verus! {

/// A properties block of the older table: the number of bytes the properties take, and the
/// properties in order.
#[derive(Debug)]
pub struct PropertyList {
    pub bytes_length: u16,
    pub properties: Vec<VariableHeaderProperty>,
}

/// The models of a list of properties.
pub open spec fn list_models(ps: Seq<VariableHeaderProperty>) -> Seq<PropertyModel> {
    ps.map_values(|p: VariableHeaderProperty| p@)
}

/// Reading a properties block from a stream: a two-byte length, that many bytes, decoded
/// as properties. The result is the recorded length and the properties.
pub open spec fn list_block_read(s: Seq<u8>) -> (Result<(u16, Seq<PropertyModel>), MqttError>, Seq<u8>) {
    let (l, s1) = data_types::read_u16_spec(s);
    match l {
        Err(e) => (Err(e), s1),
        Ok(n) => {
            let (b, s2) = data_types::read_bytes_spec(s1, n as int);
            match b {
                Err(e) => (Err(e), s2),
                Ok(bytes) => match property_model::properties_at(PropertyTable::Legacy, bytes, 0) {
                    ListStep::Done(ps) => (Ok((n, ps)), s2),
                    _ => (Err(MqttError::InvalidUtf8), s2),
                },
            }
        },
    }
}

/// Reading a properties block from this stream does not hit a decoding panic.
pub open spec fn list_block_safe(s: Seq<u8>) -> bool {
    s.len() >= 2 && s.len() - 2 >= data_types::u16_of(s[0], s[1]) ==> property_model::properties_at(
        PropertyTable::Legacy,
        s.subrange(2, 2 + data_types::u16_of(s[0], s[1]) as int),
        0,
    ) != ListStep::Panic
}

impl PropertyList {
    pub open spec fn models(&self) -> Seq<PropertyModel> {
        list_models(self.properties@)
    }

    /// The recorded length is the length of the encoded properties, and each property
    /// decodes back to itself.
    pub open spec fn wf(&self) -> bool {
        &&& self.bytes_length == property_model::properties_bytes(self.models()).len()
        &&& property_model::all_encodable(PropertyTable::Legacy, self.models())
    }

    /// The first property with identifier `id`.
    pub fn _get_property(&self, id: u8) -> (res: Option<&VariableHeaderProperty>)
        ensures
            match property_model::first_index_with_id(self.models(), id) {
                Some(i) => res == Some(&self.properties@[i]),
                None => res is None,
            },
    {
        let mut i: usize = 0;
        while i < self.properties.len()
            invariant
                0 <= i <= self.properties@.len(),
                forall|j: int| 0 <= j < i ==> (#[trigger] self.properties@[j])@.id != id,
            decreases self.properties@.len() - i,
        {
            if self.properties[i].id() == id {
                proof {
                    lemma_first_index(self.models(), id, i as int);
                }
                return Some(&self.properties[i]);
            }
            i += 1;
        }
        proof {
            lemma_no_index(self.models(), id);
        }
        None
    }

    /// Adds a user property (a UTF-8 string pair). The recorded length grows by the encoded
    /// size of the property even when the identifier is refused.
    pub fn add_utf8_pair_string_property(
        &mut self,
        id: u8,
        first_str: String,
        second_str: String,
    ) -> (res: Result<(), MqttError>)
        requires
            old(self).bytes_length + 5 + variable_header_properties::len16(first_str@) + variable_header_properties::len16(second_str@) <= u16::MAX,
        ensures
            final(self).bytes_length == old(self).bytes_length + 5 + variable_header_properties::len16(first_str@) + variable_header_properties::len16(
                second_str@,
            ),
            res is Ok <==> id == USER_PROPERTY,
            res matches Err(e) ==> e == MqttError::InvalidPropertyId && final(self).properties@
                == old(self).properties@,
            res is Ok ==> final(self).models() == old(self).models().push(
                PropertyModel { id, value: PropertyValue::TextPair(first_str@, second_str@) },
            ),
    {
        let l1 = (string_len(&first_str) % 65536) as u16;
        let l2 = (string_len(&second_str) % 65536) as u16;
        self.bytes_length += 1 + 2 + 2 + l1 + l2;
        let prop_result = VariableHeaderProperty::new_property_utf8_pair_string(id, first_str, second_str)?;
        self.properties.push(prop_result);
        assert(self.models() =~= old(self).models().push(prop_result@));
        Ok(())
    }

    /// Adds a UTF-8 string property.
    pub fn add_utf8_string_property(&mut self, id: u8, str: String) -> (res: Result<(), MqttError>)
        requires
            old(self).bytes_length + 3 + variable_header_properties::len16(str@) <= u16::MAX,
        ensures
            final(self).bytes_length == old(self).bytes_length + 3 + variable_header_properties::len16(str@),
            res is Ok <==> property_model::id_kind(PropertyTable::Legacy, id) == Some(ValueKind::Text),
            res matches Err(e) ==> e == MqttError::InvalidPropertyId && final(self).properties@
                == old(self).properties@,
            res is Ok ==> final(self).models() == old(self).models().push(
                PropertyModel { id, value: PropertyValue::Text(str@) },
            ),
    {
        let l = (string_len(&str) % 65536) as u16;
        self.bytes_length += 1 + 2 + l;
        let prop_result = VariableHeaderProperty::new_property_utf8_string(id, str)?;
        self.properties.push(prop_result);
        assert(self.models() =~= old(self).models().push(prop_result@));
        Ok(())
    }

    /// Adds a four-byte integer property.
    pub fn add_u32_property(&mut self, id: u8, value: u32) -> (res: Result<(), MqttError>)
        requires
            old(self).bytes_length + 5 <= u16::MAX,
        ensures
            final(self).bytes_length == old(self).bytes_length + 5,
            res is Ok <==> property_model::id_kind(PropertyTable::Legacy, id) == Some(ValueKind::FourBytes),
            res matches Err(e) ==> e == MqttError::InvalidPropertyId && final(self).properties@
                == old(self).properties@,
            res is Ok ==> final(self).models() == old(self).models().push(
                PropertyModel { id, value: PropertyValue::FourBytes(value) },
            ),
    {
        self.bytes_length += 1 + 4;
        let prop_result = VariableHeaderProperty::new_property_u32(id, value)?;
        self.properties.push(prop_result);
        assert(self.models() =~= old(self).models().push(prop_result@));
        Ok(())
    }

    /// Adds a two-byte integer property.
    pub fn add_u16_property(&mut self, id: u8, value: u16) -> (res: Result<(), MqttError>)
        requires
            old(self).bytes_length + 3 <= u16::MAX,
        ensures
            final(self).bytes_length == old(self).bytes_length + 3,
            res is Ok <==> property_model::id_kind(PropertyTable::Legacy, id) == Some(ValueKind::TwoBytes),
            res matches Err(e) ==> e == MqttError::InvalidPropertyId && final(self).properties@
                == old(self).properties@,
            res is Ok ==> final(self).models() == old(self).models().push(
                PropertyModel { id, value: PropertyValue::TwoBytes(value) },
            ),
    {
        self.bytes_length += 1 + 2;
        let prop_result = VariableHeaderProperty::new_property_u16(id, value)?;
        self.properties.push(prop_result);
        assert(self.models() =~= old(self).models().push(prop_result@));
        Ok(())
    }

    /// Adds a one-byte property.
    pub fn add_u8_property(&mut self, id: u8, value: u8) -> (res: Result<(), MqttError>)
        requires
            old(self).bytes_length + 2 <= u16::MAX,
        ensures
            final(self).bytes_length == old(self).bytes_length + 2,
            res is Ok <==> property_model::id_kind(PropertyTable::Legacy, id) == Some(ValueKind::Byte),
            res matches Err(e) ==> e == MqttError::InvalidPropertyId && final(self).properties@
                == old(self).properties@,
            res is Ok ==> final(self).models() == old(self).models().push(
                PropertyModel { id, value: PropertyValue::Byte(value) },
            ),
    {
        self.bytes_length += 1 + 1;
        let prop_result = VariableHeaderProperty::new_property_u8(id, value)?;
        self.properties.push(prop_result);
        assert(self.models() =~= old(self).models().push(prop_result@));
        Ok(())
    }

    /// An empty properties block.
    pub fn new() -> (res: Self)
        ensures
            res.bytes_length == 0,
            res.properties@ == Seq::<VariableHeaderProperty>::empty(),
            res.wf(),
    {
        let res = PropertyList { bytes_length: 0, properties: Vec::new() };
        assert(res.models() =~= Seq::<PropertyModel>::empty());
        res
    }

    /// The number of bytes the block takes: the two-byte length and the properties.
    pub fn size_of(&self) -> (res: u32)
        ensures
            res == 2 + self.bytes_length,
    {
        2 + self.bytes_length as u32
    }

    /// The bytes of the block: the recorded length, then each property.
    pub fn as_bytes(&self) -> (res: Vec<u8>)
        ensures
            res@ == variable_header_properties::properties_block_bytes(self.bytes_length, self.models()),
    {
        let mut bytes: Vec<u8> = Vec::new();
        push_u16(&mut bytes, self.bytes_length);
        let mut i: usize = 0;
        while i < self.properties.len()
            invariant
                0 <= i <= self.properties@.len(),
                bytes@ == data_types::be16(self.bytes_length as int) + property_model::properties_bytes(
                    self.models().take(i as int),
                ),
            decreases self.properties@.len() - i,
        {
            let ghost before = bytes@;
            self.properties[i].write_as_bytes(&mut bytes);
            proof {
                property_model::lemma_properties_bytes_push(self.models().take(i as int), self.properties@[i as int]@);
                assert(self.models().take(i + 1) =~= self.models().take(i as int).push(
                    self.properties@[i as int]@,
                ));
            }
            i += 1;
        }
        assert(self.models().take(self.properties@.len() as int) =~= self.models());
        bytes
    }

    /// Decodes a buffer holding only properties; the recorded length is the buffer length
    /// (modulo 2^16).
    pub fn from_be_bytes(properties: &[u8]) -> (res: Result<Self, MqttError>)
        requires
            property_model::properties_at(PropertyTable::Legacy, properties@, 0) != ListStep::Panic,
        ensures
            match property_model::properties_at(PropertyTable::Legacy, properties@, 0) {
                ListStep::Done(ps) => res matches Ok(v) && v.models() == ps && v.bytes_length
                    == properties@.len() % 65536,
                _ => res == Err::<Self, MqttError>(MqttError::InvalidUtf8),
            },
    {
        let mut properties_vec: Vec<VariableHeaderProperty> = Vec::new();
        let mut i: usize = 0;
        if properties.len() == 0 {
            let res = PropertyList { bytes_length: 0, properties: properties_vec };
            assert(res.models() =~= Seq::<PropertyModel>::empty());
            return Ok(res);
        }
        let ghost whole = property_model::properties_at(PropertyTable::Legacy, properties@, 0);
        while i < properties.len() - 1
            invariant
                properties@.len() > 0,
                0 <= i <= properties@.len(),
                whole == property_model::properties_at(PropertyTable::Legacy, properties@, 0),
                property_model::properties_at(PropertyTable::Legacy, properties@, i as int) != ListStep::Panic,
                match property_model::properties_at(PropertyTable::Legacy, properties@, i as int) {
                    ListStep::Done(rest) => whole == ListStep::Done(list_models(properties_vec@) + rest),
                    other => whole == other,
                },
            decreases properties@.len() - i,
        {
            let ghost pos = i as int;
            let id = properties[i];
            i += 1;
            let property = match VariableHeaderProperty::new_property_from_be_bytes(properties, &mut i, id) {
                Ok(p) => p,
                Err(e) => {
                    return Err(e);
                },
            };
            if let Some(p) = property {
                let ghost before = properties_vec@;
                properties_vec.push(p);
                assert(list_models(properties_vec@) =~= list_models(before) + seq![p@]);
                proof {
                    match property_model::properties_at(PropertyTable::Legacy, properties@, i as int) {
                        ListStep::Done(rest) => {
                            assert(list_models(before) + (seq![p@] + rest) =~= list_models(properties_vec@) + rest);
                        },
                        _ => {},
                    }
                }
            }
        }
        assert(property_model::properties_at(PropertyTable::Legacy, properties@, i as int) == ListStep::Done(Seq::<PropertyModel>::empty()));
        assert(list_models(properties_vec@) + Seq::<PropertyModel>::empty() =~= list_models(properties_vec@));
        Ok(PropertyList { bytes_length: (properties.len() % 65536) as u16, properties: properties_vec })
    }

    /// Reads a properties block from a stream: a two-byte length, then that many bytes of
    /// properties.
    pub fn read_from(stream: &mut &[u8]) -> (res: Result<Self, MqttError>)
        requires
            list_block_safe(old(stream)@),
        ensures
            ({
                let (r, rest) = list_block_read(old(stream)@);
                &&& final(stream)@ == rest
                &&& match res {
                    Ok(v) => r == Ok::<(u16, Seq<PropertyModel>), MqttError>((v.bytes_length, v.models())),
                    Err(e) => r == Err::<(u16, Seq<PropertyModel>), MqttError>(e),
                }
            }),
    {
        let ghost s0 = stream@;
        let properties_len = read_two_byte_integer(stream)?;
        let properties_buff = take_bytes(stream, properties_len as usize)?;
        assert(properties_buff@ =~= s0.subrange(2, 2 + properties_len as int));
        PropertyList::from_be_bytes(properties_buff)
    }
}

impl Default for PropertyList {
    fn default() -> (res: Self)
        ensures
            res.bytes_length == 0,
            res.properties@ == Seq::<VariableHeaderProperty>::empty(),
    {
        Self::new()
    }
}

proof fn lemma_first_index(ps: Seq<PropertyModel>, id: u8, i: int)
    requires
        0 <= i < ps.len(),
        ps[i].id == id,
        forall|j: int| 0 <= j < i ==> (#[trigger] ps[j]).id != id,
    ensures
        property_model::first_index_with_id(ps, id) == Some(i),
    decreases i,
{
    if i > 0 {
        assert(ps[0].id != id);
        lemma_first_index(ps.drop_first(), id, i - 1);
    }
}

proof fn lemma_no_index(ps: Seq<PropertyModel>, id: u8)
    requires
        forall|j: int| 0 <= j < ps.len() ==> (#[trigger] ps[j]).id != id,
    ensures
        property_model::first_index_with_id(ps, id) is None,
    decreases ps.len(),
{
    if ps.len() > 0 {
        assert(ps[0].id != id);
        lemma_no_index(ps.drop_first(), id);
    }
}

/// Reading back the bytes of a well-formed block of the older table gives its length and its
/// properties, and leaves what follows the block.
#[verifier::spinoff_prover]
#[verifier::rlimit(30)]
pub proof fn lemma_list_block_roundtrip(
    bytes_length: u16,
    ps: Seq<PropertyModel>,
    rest: Seq<u8>,
)
    requires
        bytes_length == property_model::properties_bytes(ps).len(),
        property_model::all_encodable(PropertyTable::Legacy, ps),
    ensures
        list_block_read(variable_header_properties::properties_block_bytes(bytes_length, ps) + rest) == (
            Ok::<(u16, Seq<PropertyModel>), MqttError>((bytes_length, ps)),
            rest,
        ),
        list_block_safe(variable_header_properties::properties_block_bytes(bytes_length, ps) + rest),
{
    let s = variable_header_properties::properties_block_bytes(bytes_length, ps) + rest;
    let e = property_model::properties_bytes(ps);
    crate::common::data_types::lemma_be16_roundtrip(bytes_length);
    assert(s[0] == data_types::be16(bytes_length as int)[0]);
    assert(s[1] == data_types::be16(bytes_length as int)[1]);
    assert(s.skip(2).take(e.len() as int) =~= e);
    assert(s.skip(2).skip(e.len() as int) =~= rest);
    assert(s.subrange(2, 2 + e.len() as int) =~= e);
    assert(e.subrange(0, e.len() as int) =~= e);
    property_model::lemma_properties_roundtrip(PropertyTable::Legacy, e, 0, ps);
}

} // verus!
