use vstd::prelude::*;
use vstd::utf8::*;

use crate::common::data_types::{read_two_byte_integer, string_len, string_to_bytes, take_bytes, variable_byte_integer_length, MqttError};
use crate::common::data_types;
use crate::control_packets::mqtt_packet::packet_property::{push_u16, PacketProperty, USER_PROPERTY};
use crate::control_packets::mqtt_packet::packet_property;
use crate::control_packets::mqtt_packet::property_model::{ListStep, PropertyModel, PropertyTable, PropertyValue, Slot, ValueKind};
use crate::control_packets::mqtt_packet::property_model;

verus! {

/// The properties block of a variable header: the number of bytes the properties take,
/// and the properties in order.
#[derive(Debug)]
pub struct VariableHeaderProperties {
    pub bytes_length: u16,
    pub properties: Vec<PacketProperty>,
}

/// The models of a list of properties.
pub open spec fn models(ps: Seq<PacketProperty>) -> Seq<PropertyModel> {
    ps.map_values(|p: PacketProperty| p@)
}

/// The bytes a string length field records: the UTF-8 length taken modulo 2^16.
pub open spec fn len16(s: Seq<char>) -> int {
    (encode_utf8(s).len() % 65536) as int
}

/// The bytes of a properties block: the two-byte length, then the properties.
pub open spec fn properties_block_bytes(bytes_length: u16, ps: Seq<PropertyModel>) -> Seq<u8> {
    data_types::be16(bytes_length as int) + property_model::properties_bytes(ps)
}

/// Reading a properties block from a stream: a two-byte length, that many bytes, decoded
/// as properties. The result is the recorded length and the properties.
pub open spec fn properties_block_read(s: Seq<u8>) -> (Result<(u16, Seq<PropertyModel>), MqttError>, Seq<u8>) {
    let (l, s1) = data_types::read_u16_spec(s);
    match l {
        Err(e) => (Err(e), s1),
        Ok(n) => {
            let (b, s2) = data_types::read_bytes_spec(s1, n as int);
            match b {
                Err(e) => (Err(e), s2),
                Ok(bytes) => match property_model::properties_at(PropertyTable::Current, bytes, 0) {
                    ListStep::Done(ps) => (Ok((n, ps)), s2),
                    _ => (Err(MqttError::InvalidUtf8), s2),
                },
            }
        },
    }
}

/// Reading a properties block from this stream does not hit a decoding panic.
pub open spec fn properties_block_safe(s: Seq<u8>) -> bool {
    s.len() >= 2 && s.len() - 2 >= data_types::u16_of(s[0], s[1]) ==> property_model::properties_at(
        PropertyTable::Current,
        s.subrange(2, 2 + data_types::u16_of(s[0], s[1]) as int),
        0,
    ) != ListStep::Panic
}

impl VariableHeaderProperties {
    pub open spec fn models(&self) -> Seq<PropertyModel> {
        models(self.properties@)
    }

    /// The recorded length is the length of the encoded properties, and each property
    /// decodes back to itself.
    pub open spec fn wf(&self) -> bool {
        &&& self.bytes_length == property_model::properties_bytes(self.models()).len()
        &&& property_model::all_encodable(PropertyTable::Current, self.models())
    }

    /// The first property with identifier `id`.
    pub fn _get_property(&self, id: u8) -> (res: Option<&PacketProperty>)
        ensures
            match property_model::first_index_with_id(self.models(), id) {
                Some(i) => res == Some(&self.properties@[i]),
                None => res is None,
            },
    {
        let mut i: usize = 0;
        while i < self.properties.len()
            invariant
                0 <= i <= self.properties@.len(),
                forall|j: int| 0 <= j < i ==> (#[trigger] self.properties@[j])@.id != id,
            decreases self.properties@.len() - i,
        {
            if self.properties[i].id() == id {
                proof {
                    lemma_first_index(self.models(), id, i as int);
                }
                return Some(&self.properties[i]);
            }
            i += 1;
        }
        proof {
            lemma_no_index(self.models(), id);
        }
        None
    }

    /// Adds a user property (a UTF-8 string pair). The recorded length grows by the encoded
    /// size of the property even when the identifier is refused.
    pub fn add_utf8_pair_string_property(
        &mut self,
        id: u8,
        first_str: String,
        second_str: String,
    ) -> (res: Result<(), MqttError>)
        requires
            old(self).bytes_length + 5 + len16(first_str@) + len16(second_str@) <= u16::MAX,
        ensures
            final(self).bytes_length == old(self).bytes_length + 5 + len16(first_str@) + len16(
                second_str@,
            ),
            res is Ok <==> id == USER_PROPERTY,
            res matches Err(e) ==> e == MqttError::InvalidPropertyId && final(self).properties@
                == old(self).properties@,
            res is Ok ==> final(self).models() == old(self).models().push(
                PropertyModel { id, value: PropertyValue::TextPair(first_str@, second_str@) },
            ),
    {
        let l1 = (string_len(&first_str) % 65536) as u16;
        let l2 = (string_len(&second_str) % 65536) as u16;
        self.bytes_length += 1 + 2 + 2 + l1 + l2;
        let prop_result = PacketProperty::new_property_utf8_pair_string(id, first_str, second_str)?;
        self.properties.push(prop_result);
        assert(self.models() =~= old(self).models().push(prop_result@));
        Ok(())
    }

    /// Adds a UTF-8 string property.
    pub fn add_utf8_string_property(&mut self, id: u8, str: String) -> (res: Result<(), MqttError>)
        requires
            old(self).bytes_length + 3 + len16(str@) <= u16::MAX,
        ensures
            final(self).bytes_length == old(self).bytes_length + 3 + len16(str@),
            res is Ok <==> property_model::id_kind(PropertyTable::Current, id) == Some(ValueKind::Text),
            res matches Err(e) ==> e == MqttError::InvalidPropertyId && final(self).properties@
                == old(self).properties@,
            res is Ok ==> final(self).models() == old(self).models().push(
                PropertyModel { id, value: PropertyValue::Text(str@) },
            ),
    {
        let l = (string_len(&str) % 65536) as u16;
        self.bytes_length += 1 + 2 + l;
        let prop_result = PacketProperty::new_property_utf8_string(id, str)?;
        self.properties.push(prop_result);
        assert(self.models() =~= old(self).models().push(prop_result@));
        Ok(())
    }

    /// Adds a binary data property.
    pub fn add_binary_data_property(&mut self, id: u8, data: Vec<u8>) -> (res: Result<(), MqttError>)
        requires
            old(self).bytes_length + 3 + data@.len() % 65536 <= u16::MAX,
        ensures
            final(self).bytes_length == old(self).bytes_length + 3 + data@.len() % 65536,
            res is Ok <==> property_model::id_kind(PropertyTable::Current, id) == Some(ValueKind::Binary),
            res matches Err(e) ==> e == MqttError::InvalidPropertyId && final(self).properties@
                == old(self).properties@,
            res is Ok ==> final(self).models() == old(self).models().push(
                PropertyModel { id, value: PropertyValue::Binary(data@) },
            ),
    {
        let l = (data.len() % 65536) as u16;
        self.bytes_length += 1 + 2 + l;
        let prop_result = PacketProperty::new_property_binary_data(id, data)?;
        self.properties.push(prop_result);
        assert(self.models() =~= old(self).models().push(prop_result@));
        Ok(())
    }

    /// Adds a Variable Byte Integer property.
    pub fn add_variable_byte_integer_property(&mut self, id: u8, value: u32) -> (res: Result<
        (),
        MqttError,
    >)
        requires
            old(self).bytes_length + 1 + data_types::vbi_bytes(value as nat).len() <= u16::MAX,
        ensures
            final(self).bytes_length == old(self).bytes_length + 1 + data_types::vbi_bytes(value as nat).len(),
            res is Ok <==> property_model::id_kind(PropertyTable::Current, id) == Some(ValueKind::VarInt),
            res matches Err(e) ==> e == MqttError::InvalidPropertyId && final(self).properties@
                == old(self).properties@,
            res is Ok ==> final(self).models() == old(self).models().push(
                PropertyModel { id, value: PropertyValue::VarInt(value) },
            ),
    {
        let l = variable_byte_integer_length(value) as u16;
        self.bytes_length += 1 + l;
        let prop_result = PacketProperty::new_property_variable_byte_integer(id, value)?;
        self.properties.push(prop_result);
        assert(self.models() =~= old(self).models().push(prop_result@));
        Ok(())
    }

    /// Adds a four-byte integer property.
    pub fn add_u32_property(&mut self, id: u8, value: u32) -> (res: Result<(), MqttError>)
        requires
            old(self).bytes_length + 5 <= u16::MAX,
        ensures
            final(self).bytes_length == old(self).bytes_length + 5,
            res is Ok <==> property_model::id_kind(PropertyTable::Current, id) == Some(ValueKind::FourBytes),
            res matches Err(e) ==> e == MqttError::InvalidPropertyId && final(self).properties@
                == old(self).properties@,
            res is Ok ==> final(self).models() == old(self).models().push(
                PropertyModel { id, value: PropertyValue::FourBytes(value) },
            ),
    {
        self.bytes_length += 1 + 4;
        let prop_result = PacketProperty::new_property_u32(id, value)?;
        self.properties.push(prop_result);
        assert(self.models() =~= old(self).models().push(prop_result@));
        Ok(())
    }

    /// Adds a two-byte integer property.
    pub fn add_u16_property(&mut self, id: u8, value: u16) -> (res: Result<(), MqttError>)
        requires
            old(self).bytes_length + 3 <= u16::MAX,
        ensures
            final(self).bytes_length == old(self).bytes_length + 3,
            res is Ok <==> property_model::id_kind(PropertyTable::Current, id) == Some(ValueKind::TwoBytes),
            res matches Err(e) ==> e == MqttError::InvalidPropertyId && final(self).properties@
                == old(self).properties@,
            res is Ok ==> final(self).models() == old(self).models().push(
                PropertyModel { id, value: PropertyValue::TwoBytes(value) },
            ),
    {
        self.bytes_length += 1 + 2;
        let prop_result = PacketProperty::new_property_u16(id, value)?;
        self.properties.push(prop_result);
        assert(self.models() =~= old(self).models().push(prop_result@));
        Ok(())
    }

    /// Adds a one-byte property.
    pub fn add_u8_property(&mut self, id: u8, value: u8) -> (res: Result<(), MqttError>)
        requires
            old(self).bytes_length + 2 <= u16::MAX,
        ensures
            final(self).bytes_length == old(self).bytes_length + 2,
            res is Ok <==> property_model::id_kind(PropertyTable::Current, id) == Some(ValueKind::Byte),
            res matches Err(e) ==> e == MqttError::InvalidPropertyId && final(self).properties@
                == old(self).properties@,
            res is Ok ==> final(self).models() == old(self).models().push(
                PropertyModel { id, value: PropertyValue::Byte(value) },
            ),
    {
        self.bytes_length += 1 + 1;
        let prop_result = PacketProperty::new_property_u8(id, value)?;
        self.properties.push(prop_result);
        assert(self.models() =~= old(self).models().push(prop_result@));
        Ok(())
    }

    /// An empty properties block.
    pub fn new() -> (res: Self)
        ensures
            res.bytes_length == 0,
            res.properties@ == Seq::<PacketProperty>::empty(),
            res.wf(),
    {
        let res = VariableHeaderProperties { bytes_length: 0, properties: Vec::new() };
        assert(res.models() =~= Seq::<PropertyModel>::empty());
        res
    }

    /// The number of bytes the block takes: the two-byte length and the properties.
    pub fn size_of(&self) -> (res: u32)
        ensures
            res == 2 + self.bytes_length,
    {
        2 + self.bytes_length as u32
    }

    /// The bytes of the block: the recorded length, then each property.
    pub fn as_bytes(&self) -> (res: Vec<u8>)
        ensures
            res@ == properties_block_bytes(self.bytes_length, self.models()),
    {
        let mut bytes: Vec<u8> = Vec::new();
        push_u16(&mut bytes, self.bytes_length);
        let mut i: usize = 0;
        while i < self.properties.len()
            invariant
                0 <= i <= self.properties@.len(),
                bytes@ == data_types::be16(self.bytes_length as int) + property_model::properties_bytes(
                    self.models().take(i as int),
                ),
            decreases self.properties@.len() - i,
        {
            let ghost before = bytes@;
            self.properties[i].write_as_bytes(&mut bytes);
            proof {
                property_model::lemma_properties_bytes_push(self.models().take(i as int), self.properties@[i as int]@);
                assert(self.models().take(i + 1) =~= self.models().take(i as int).push(
                    self.properties@[i as int]@,
                ));
            }
            i += 1;
        }
        assert(self.models().take(self.properties@.len() as int) =~= self.models());
        bytes
    }

    /// Decodes a buffer holding only properties; the recorded length is the buffer length
    /// (modulo 2^16).
    pub fn from_be_bytes(properties: &[u8]) -> (res: Result<Self, MqttError>)
        requires
            property_model::properties_at(PropertyTable::Current, properties@, 0) != ListStep::Panic,
        ensures
            match property_model::properties_at(PropertyTable::Current, properties@, 0) {
                ListStep::Done(ps) => res matches Ok(v) && v.models() == ps && v.bytes_length
                    == properties@.len() % 65536,
                _ => res == Err::<Self, MqttError>(MqttError::InvalidUtf8),
            },
    {
        let mut properties_vec: Vec<PacketProperty> = Vec::new();
        let mut i: usize = 0;
        if properties.len() == 0 {
            let res = VariableHeaderProperties { bytes_length: 0, properties: properties_vec };
            assert(res.models() =~= Seq::<PropertyModel>::empty());
            return Ok(res);
        }
        let ghost whole = property_model::properties_at(PropertyTable::Current, properties@, 0);
        while i < properties.len() - 1
            invariant
                properties@.len() > 0,
                0 <= i <= properties@.len(),
                whole == property_model::properties_at(PropertyTable::Current, properties@, 0),
                property_model::properties_at(PropertyTable::Current, properties@, i as int) != ListStep::Panic,
                match property_model::properties_at(PropertyTable::Current, properties@, i as int) {
                    ListStep::Done(rest) => whole == ListStep::Done(models(properties_vec@) + rest),
                    other => whole == other,
                },
            decreases properties@.len() - i,
        {
            let ghost pos = i as int;
            let id = properties[i];
            i += 1;
            let property = match PacketProperty::new_property_from_be_bytes(properties, &mut i, id) {
                Ok(p) => p,
                Err(e) => {
                    return Err(e);
                },
            };
            if let Some(p) = property {
                let ghost before = properties_vec@;
                properties_vec.push(p);
                assert(models(properties_vec@) =~= models(before) + seq![p@]);
                proof {
                    match property_model::properties_at(PropertyTable::Current, properties@, i as int) {
                        ListStep::Done(rest) => {
                            assert(models(before) + (seq![p@] + rest) =~= models(properties_vec@) + rest);
                        },
                        _ => {},
                    }
                }
            }
        }
        assert(property_model::properties_at(PropertyTable::Current, properties@, i as int) == ListStep::Done(Seq::<PropertyModel>::empty()));
        assert(models(properties_vec@) + Seq::<PropertyModel>::empty() =~= models(properties_vec@));
        Ok(VariableHeaderProperties { bytes_length: (properties.len() % 65536) as u16, properties: properties_vec })
    }

    /// Reads a properties block from a stream: a two-byte length, then that many bytes of
    /// properties.
    pub fn read_from(stream: &mut &[u8]) -> (res: Result<Self, MqttError>)
        requires
            properties_block_safe(old(stream)@),
        ensures
            ({
                let (r, rest) = properties_block_read(old(stream)@);
                &&& final(stream)@ == rest
                &&& match res {
                    Ok(v) => r == Ok::<(u16, Seq<PropertyModel>), MqttError>((v.bytes_length, v.models())),
                    Err(e) => r == Err::<(u16, Seq<PropertyModel>), MqttError>(e),
                }
            }),
    {
        let ghost s0 = stream@;
        let properties_len = read_two_byte_integer(stream)?;
        let properties_buff = take_bytes(stream, properties_len as usize)?;
        assert(properties_buff@ =~= s0.subrange(2, 2 + properties_len as int));
        VariableHeaderProperties::from_be_bytes(properties_buff)
    }
}

impl VariableHeaderProperties {
    /// The block holds the properties of the first `i` of `slots`; the properties of all the
    /// slots fit in one block, and each carries the kind of value its identifier takes.
    pub open spec fn holds_slots(&self, slots: Seq<Slot>, i: int) -> bool {
        &&& 0 <= i <= slots.len()
        &&& property_model::slots_fit(slots)
        &&& property_model::slots_typed(PropertyTable::Current, slots)
        &&& self.models() == property_model::slot_list(slots.take(i))
        &&& self.bytes_length == property_model::properties_bytes(property_model::slot_list(slots.take(i))).len()
    }

    /// Adds the UTF-8 string of slot `i`, if it is filled.
    pub(crate) fn put_text(
        &mut self,
        id: u8,
        value: &Option<String>,
        Ghost(slots): Ghost<Seq<Slot>>,
        Ghost(i): Ghost<int>,
    )
        requires
            old(self).holds_slots(slots, i),
            i < slots.len(),
            slots[i] == (id, property_model::opt_text(packet_property::opt_string_view(*value))),
        ensures
            final(self).holds_slots(slots, i + 1),
    {
        proof {
            property_model::lemma_slot_step(slots, i);
        }
        if let Some(s) = value {
            assert(property_model::id_kind(PropertyTable::Current, slots[i].0) == Some(
                property_model::kind_of(PropertyValue::Text(s@)),
            ));
            let _ = self.add_utf8_string_property(id, s.clone());
        }
    }

    /// Adds the string of slot `i`, as binary data holding its UTF-8 bytes, if it is filled.
    pub(crate) fn put_text_as_binary(
        &mut self,
        id: u8,
        value: &Option<String>,
        Ghost(slots): Ghost<Seq<Slot>>,
        Ghost(i): Ghost<int>,
    )
        requires
            old(self).holds_slots(slots, i),
            i < slots.len(),
            slots[i] == (id, property_model::opt_text_binary(packet_property::opt_string_view(*value))),
        ensures
            final(self).holds_slots(slots, i + 1),
    {
        proof {
            property_model::lemma_slot_step(slots, i);
        }
        if let Some(s) = value {
            let data = string_to_bytes(s);
            assert(property_model::id_kind(PropertyTable::Current, slots[i].0) == Some(
                property_model::kind_of(PropertyValue::Binary(data@)),
            ));
            let _ = self.add_binary_data_property(id, data);
        }
    }

    /// Adds the string pair of slot `i`, if it is filled.
    pub(crate) fn put_pair(
        &mut self,
        id: u8,
        value: &Option<(String, String)>,
        Ghost(slots): Ghost<Seq<Slot>>,
        Ghost(i): Ghost<int>,
    )
        requires
            old(self).holds_slots(slots, i),
            i < slots.len(),
            slots[i] == (id, property_model::opt_pair(packet_property::opt_pair_view(*value))),
        ensures
            final(self).holds_slots(slots, i + 1),
    {
        proof {
            property_model::lemma_slot_step(slots, i);
        }
        if let Some(p) = value {
            assert(property_model::id_kind(PropertyTable::Current, slots[i].0) == Some(
                property_model::kind_of(PropertyValue::TextPair(p.0@, p.1@)),
            ));
            let _ = self.add_utf8_pair_string_property(id, p.0.clone(), p.1.clone());
        }
    }

    /// Adds the byte of slot `i`, if it is filled.
    pub(crate) fn put_u8(
        &mut self,
        id: u8,
        value: Option<u8>,
        Ghost(slots): Ghost<Seq<Slot>>,
        Ghost(i): Ghost<int>,
    )
        requires
            old(self).holds_slots(slots, i),
            i < slots.len(),
            slots[i] == (id, property_model::opt_u8(value)),
        ensures
            final(self).holds_slots(slots, i + 1),
    {
        proof {
            property_model::lemma_slot_step(slots, i);
        }
        if let Some(v) = value {
            assert(property_model::id_kind(PropertyTable::Current, slots[i].0) == Some(
                property_model::kind_of(PropertyValue::Byte(v)),
            ));
            let _ = self.add_u8_property(id, v);
        }
    }

    /// Adds the two-byte integer of slot `i`, if it is filled.
    pub(crate) fn put_u16(
        &mut self,
        id: u8,
        value: Option<u16>,
        Ghost(slots): Ghost<Seq<Slot>>,
        Ghost(i): Ghost<int>,
    )
        requires
            old(self).holds_slots(slots, i),
            i < slots.len(),
            slots[i] == (id, property_model::opt_u16(value)),
        ensures
            final(self).holds_slots(slots, i + 1),
    {
        proof {
            property_model::lemma_slot_step(slots, i);
        }
        if let Some(v) = value {
            assert(property_model::id_kind(PropertyTable::Current, slots[i].0) == Some(
                property_model::kind_of(PropertyValue::TwoBytes(v)),
            ));
            let _ = self.add_u16_property(id, v);
        }
    }

    /// Adds the four-byte integer of slot `i`, if it is filled.
    pub(crate) fn put_u32(
        &mut self,
        id: u8,
        value: Option<u32>,
        Ghost(slots): Ghost<Seq<Slot>>,
        Ghost(i): Ghost<int>,
    )
        requires
            old(self).holds_slots(slots, i),
            i < slots.len(),
            slots[i] == (id, property_model::opt_u32(value)),
        ensures
            final(self).holds_slots(slots, i + 1),
    {
        proof {
            property_model::lemma_slot_step(slots, i);
        }
        if let Some(v) = value {
            assert(property_model::id_kind(PropertyTable::Current, slots[i].0) == Some(
                property_model::kind_of(PropertyValue::FourBytes(v)),
            ));
            let _ = self.add_u32_property(id, v);
        }
    }

    /// Adds the Variable Byte Integer of slot `i`, if it is filled.
    pub(crate) fn put_vbi(
        &mut self,
        id: u8,
        value: Option<u32>,
        Ghost(slots): Ghost<Seq<Slot>>,
        Ghost(i): Ghost<int>,
    )
        requires
            old(self).holds_slots(slots, i),
            i < slots.len(),
            slots[i] == (id, property_model::opt_vbi(value)),
        ensures
            final(self).holds_slots(slots, i + 1),
    {
        proof {
            property_model::lemma_slot_step(slots, i);
        }
        if let Some(v) = value {
            assert(property_model::id_kind(PropertyTable::Current, slots[i].0) == Some(
                property_model::kind_of(PropertyValue::VarInt(v)),
            ));
            let _ = self.add_variable_byte_integer_property(id, v);
        }
    }

    /// A new block, ready to take `slots` in order.
    pub(crate) fn for_slots(Ghost(slots): Ghost<Seq<Slot>>) -> (res: Self)
        requires
            property_model::slots_fit(slots),
            property_model::slots_typed(PropertyTable::Current, slots),
        ensures
            res.holds_slots(slots, 0),
    {
        proof {
            property_model::lemma_slot_list_empty(slots);
        }
        let res = Self::new();
        assert(res.models() =~= property_model::slot_list(slots.take(0)));
        res
    }
}

/// A block that holds all of `slots` is well formed, and holds their properties.
pub proof fn lemma_holds_all_slots(v: &VariableHeaderProperties, slots: Seq<Slot>)
    requires
        v.holds_slots(slots, slots.len() as int),
    ensures
        v.wf(),
        v.models() == property_model::slot_list(slots),
{
    property_model::lemma_slot_list_all(slots);
    property_model::lemma_slots_encodable(PropertyTable::Current, slots);
}

impl Default for VariableHeaderProperties {
    fn default() -> (res: Self)
        ensures
            res.bytes_length == 0,
            res.properties@ == Seq::<PacketProperty>::empty(),
    {
        Self::new()
    }
}

proof fn lemma_first_index(ps: Seq<PropertyModel>, id: u8, i: int)
    requires
        0 <= i < ps.len(),
        ps[i].id == id,
        forall|j: int| 0 <= j < i ==> (#[trigger] ps[j]).id != id,
    ensures
        property_model::first_index_with_id(ps, id) == Some(i),
    decreases i,
{
    if i > 0 {
        assert(ps[0].id != id);
        lemma_first_index(ps.drop_first(), id, i - 1);
    }
}

proof fn lemma_no_index(ps: Seq<PropertyModel>, id: u8)
    requires
        forall|j: int| 0 <= j < ps.len() ==> (#[trigger] ps[j]).id != id,
    ensures
        property_model::first_index_with_id(ps, id) is None,
    decreases ps.len(),
{
    if ps.len() > 0 {
        assert(ps[0].id != id);
        lemma_no_index(ps.drop_first(), id);
    }
}

/// Reading back the bytes of a well-formed properties block gives its length and its
/// properties, and leaves what follows the block.
#[verifier::spinoff_prover]
#[verifier::rlimit(30)]
pub proof fn lemma_properties_block_roundtrip(
    bytes_length: u16,
    ps: Seq<PropertyModel>,
    rest: Seq<u8>,
)
    requires
        bytes_length == property_model::properties_bytes(ps).len(),
        property_model::all_encodable(PropertyTable::Current, ps),
    ensures
        properties_block_read(properties_block_bytes(bytes_length, ps) + rest) == (
            Ok::<(u16, Seq<PropertyModel>), MqttError>((bytes_length, ps)),
            rest,
        ),
        properties_block_safe(properties_block_bytes(bytes_length, ps) + rest),
{
    let s = properties_block_bytes(bytes_length, ps) + rest;
    let e = property_model::properties_bytes(ps);
    crate::common::data_types::lemma_be16_roundtrip(bytes_length);
    assert(s[0] == data_types::be16(bytes_length as int)[0]);
    assert(s[1] == data_types::be16(bytes_length as int)[1]);
    assert(s.skip(2).take(e.len() as int) =~= e);
    assert(s.skip(2).skip(e.len() as int) =~= rest);
    assert(s.subrange(2, 2 + e.len() as int) =~= e);
    assert(e.subrange(0, e.len() as int) =~= e);
    property_model::lemma_properties_roundtrip(PropertyTable::Current, e, 0, ps);
}

} // verus!
