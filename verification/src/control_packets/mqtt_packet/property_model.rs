//! The mathematical model of MQTT properties: what a property holds, how it is laid out
//! in bytes, and how a buffer of properties is decoded.
use vstd::prelude::*;
use vstd::utf8::*;

use crate::common::data_types;

verus! {

broadcast use {vstd::utf8::encode_utf8_valid_utf8, vstd::utf8::encode_utf8_decode_utf8};

/// The value a property carries, by wire kind.
pub enum PropertyValue {
    Byte(u8),
    TwoBytes(u16),
    FourBytes(u32),
    VarInt(u32),
    Text(Seq<char>),
    Binary(Seq<u8>),
    TextPair(Seq<char>, Seq<char>),
}

/// The wire kinds of property values.
pub enum ValueKind {
    Byte,
    TwoBytes,
    FourBytes,
    VarInt,
    Text,
    Binary,
    TextPair,
}

/// A property: its identifier byte and its value.
pub struct PropertyModel {
    pub id: u8,
    pub value: PropertyValue,
}

/// The two property tables of this library: the current one, and the older one in which
/// Correlation Data and Authentication Data are two-byte integers and the Subscription
/// Identifier is a four-byte integer.
pub enum PropertyTable {
    Current,
    Legacy,
}

pub open spec fn kind_of(v: PropertyValue) -> ValueKind {
    match v {
        PropertyValue::Byte(_) => ValueKind::Byte,
        PropertyValue::TwoBytes(_) => ValueKind::TwoBytes,
        PropertyValue::FourBytes(_) => ValueKind::FourBytes,
        PropertyValue::VarInt(_) => ValueKind::VarInt,
        PropertyValue::Text(_) => ValueKind::Text,
        PropertyValue::Binary(_) => ValueKind::Binary,
        PropertyValue::TextPair(_, _) => ValueKind::TextPair,
    }
}

/// The kind of value each property identifier carries in a table, if the identifier is known.
pub open spec fn id_kind(t: PropertyTable, id: u8) -> Option<ValueKind> {
    if id == 1 || id == 23 || id == 25 || id == 36 || id == 37 || id == 40 || id == 41 || id
        == 42 {
        Some(ValueKind::Byte)
    } else if id == 19 || id == 33 || id == 34 || id == 35 {
        Some(ValueKind::TwoBytes)
    } else if id == 2 || id == 17 || id == 24 || id == 39 {
        Some(ValueKind::FourBytes)
    } else if id == 3 || id == 8 || id == 18 || id == 21 || id == 26 || id == 28 || id == 31 {
        Some(ValueKind::Text)
    } else if id == 38 {
        Some(ValueKind::TextPair)
    } else if id == 11 {
        match t {
            PropertyTable::Current => Some(ValueKind::VarInt),
            PropertyTable::Legacy => Some(ValueKind::FourBytes),
        }
    } else if id == 9 || id == 22 {
        match t {
            PropertyTable::Current => Some(ValueKind::Binary),
            PropertyTable::Legacy => Some(ValueKind::TwoBytes),
        }
    } else {
        None
    }
}

// ---------------------------------------------------------------------------
// Encoding
// ---------------------------------------------------------------------------

pub open spec fn value_bytes(v: PropertyValue) -> Seq<u8> {
    match v {
        PropertyValue::Byte(b) => seq![b],
        PropertyValue::TwoBytes(x) => data_types::be16(x as int),
        PropertyValue::FourBytes(x) => data_types::be32(x as int),
        PropertyValue::VarInt(x) => data_types::vbi_bytes(x as nat),
        PropertyValue::Text(s) => data_types::text_bytes(s),
        PropertyValue::Binary(b) => data_types::binary_bytes(b),
        PropertyValue::TextPair(a, b) => data_types::text_bytes(a) + data_types::text_bytes(b),
    }
}

pub open spec fn property_bytes(p: PropertyModel) -> Seq<u8> {
    seq![p.id] + value_bytes(p.value)
}

/// The properties laid out one after the other.
pub open spec fn properties_bytes(ps: Seq<PropertyModel>) -> Seq<u8>
    decreases ps.len(),
{
    if ps.len() == 0 {
        Seq::empty()
    } else {
        property_bytes(ps[0]) + properties_bytes(ps.drop_first())
    }
}

/// A value whose length prefixes hold its true lengths.
pub open spec fn value_fits(v: PropertyValue) -> bool {
    match v {
        PropertyValue::Text(s) => encode_utf8(s).len() <= u16::MAX,
        PropertyValue::Binary(b) => b.len() <= u16::MAX,
        PropertyValue::TextPair(a, b) => encode_utf8(a).len() <= u16::MAX && encode_utf8(b).len()
            <= u16::MAX,
        _ => true,
    }
}

/// A property that decodes back to itself under a table.
pub open spec fn encodable(t: PropertyTable, p: PropertyModel) -> bool {
    &&& id_kind(t, p.id) == Some(kind_of(p.value))
    &&& value_fits(p.value)
}

pub open spec fn all_encodable(t: PropertyTable, ps: Seq<PropertyModel>) -> bool {
    forall|i: int| 0 <= i < ps.len() ==> #[trigger] encodable(t, ps[i])
}

// ---------------------------------------------------------------------------
// Decoding from a buffer at a cursor
// ---------------------------------------------------------------------------

/// The outcome of decoding one value: the value and the cursor after it, a UTF-8 error, or
/// a read past the buffer (or an arithmetic overflow), on which the decoder panics.
pub enum ValueStep {
    Value(PropertyValue, int),
    Utf8Error,
    Panic,
}

pub open spec fn text_at(buf: Seq<u8>, pos: int) -> ValueStep {
    if 0 <= pos && pos + 2 <= buf.len() {
        let n = data_types::u16_of(buf[pos], buf[pos + 1]) as int;
        if pos + 2 + n <= buf.len() {
            match data_types::utf8_spec(buf.subrange(pos + 2, pos + 2 + n)) {
                Ok(c) => ValueStep::Value(PropertyValue::Text(c), pos + 2 + n),
                Err(_) => ValueStep::Utf8Error,
            }
        } else {
            ValueStep::Panic
        }
    } else {
        ValueStep::Panic
    }
}

pub open spec fn value_at(k: ValueKind, buf: Seq<u8>, pos: int) -> ValueStep {
    if pos < 0 {
        ValueStep::Panic
    } else {
        match k {
            ValueKind::Byte => if pos + 1 <= buf.len() {
                ValueStep::Value(PropertyValue::Byte(buf[pos]), pos + 1)
            } else {
                ValueStep::Panic
            },
            ValueKind::TwoBytes => if pos + 2 <= buf.len() {
                ValueStep::Value(PropertyValue::TwoBytes(data_types::u16_of(buf[pos], buf[pos + 1])), pos + 2)
            } else {
                ValueStep::Panic
            },
            ValueKind::FourBytes => if pos + 4 <= buf.len() {
                ValueStep::Value(
                    PropertyValue::FourBytes(
                        data_types::u32_of(buf[pos], buf[pos + 1], buf[pos + 2], buf[pos + 3]),
                    ),
                    pos + 4,
                )
            } else {
                ValueStep::Panic
            },
            ValueKind::VarInt => if data_types::vbi_scan_safe(buf, pos, 0, 1) {
                ValueStep::Value(
                    PropertyValue::VarInt(data_types::vbi_scan(buf, pos, 0, 1).0 as u32),
                    data_types::vbi_scan(buf, pos, 0, 1).1,
                )
            } else {
                ValueStep::Panic
            },
            ValueKind::Text => text_at(buf, pos),
            ValueKind::Binary => if pos + 2 <= buf.len() {
                let n = data_types::u16_of(buf[pos], buf[pos + 1]) as int;
                if pos + 2 + n <= buf.len() {
                    ValueStep::Value(
                        PropertyValue::Binary(buf.subrange(pos + 2, pos + 2 + n)),
                        pos + 2 + n,
                    )
                } else {
                    ValueStep::Panic
                }
            } else {
                ValueStep::Panic
            },
            ValueKind::TextPair => match text_at(buf, pos) {
                ValueStep::Value(PropertyValue::Text(a), p1) => match text_at(buf, p1) {
                    ValueStep::Value(PropertyValue::Text(b), p2) => ValueStep::Value(
                        PropertyValue::TextPair(a, b),
                        p2,
                    ),
                    ValueStep::Value(_, _) => ValueStep::Panic,
                    ValueStep::Utf8Error => ValueStep::Utf8Error,
                    ValueStep::Panic => ValueStep::Panic,
                },
                ValueStep::Value(_, _) => ValueStep::Panic,
                ValueStep::Utf8Error => ValueStep::Utf8Error,
                ValueStep::Panic => ValueStep::Panic,
            },
        }
    }
}

/// The outcome of decoding one property whose identifier was already read: nothing for an
/// unknown identifier (the cursor stays), else the value step.
pub open spec fn property_at(t: PropertyTable, buf: Seq<u8>, pos: int, id: u8) -> Option<
    ValueStep,
> {
    match id_kind(t, id) {
        None => None,
        Some(k) => Some(value_at(k, buf, pos)),
    }
}

/// The outcome of decoding a property list.
pub enum ListStep {
    Done(Seq<PropertyModel>),
    Utf8Error,
    Panic,
}

/// Decodes properties from `pos` while the cursor is before the last byte: read an
/// identifier, then its value; unknown identifiers are skipped one byte at a time.
pub open spec fn properties_at(t: PropertyTable, buf: Seq<u8>, pos: int) -> ListStep
    decreases buf.len() - pos,
{
    if pos < 0 || !(pos < buf.len() - 1) {
        ListStep::Done(Seq::empty())
    } else {
        let id = buf[pos];
        match property_at(t, buf, pos + 1, id) {
            None => properties_at(t, buf, pos + 1),
            Some(ValueStep::Panic) => ListStep::Panic,
            Some(ValueStep::Utf8Error) => ListStep::Utf8Error,
            Some(ValueStep::Value(v, np)) => if np <= pos || np > buf.len() {
                ListStep::Panic
            } else {
                match properties_at(t, buf, np) {
                    ListStep::Done(rest) => ListStep::Done(
                        seq![PropertyModel { id, value: v }] + rest,
                    ),
                    other => other,
                }
            },
        }
    }
}

// ---------------------------------------------------------------------------
// Looking properties up by identifier
// ---------------------------------------------------------------------------

/// The last property with identifier `id`, if any.
pub open spec fn last_with_id(ps: Seq<PropertyModel>, id: u8) -> Option<PropertyModel>
    decreases ps.len(),
{
    if ps.len() == 0 {
        None
    } else if ps.last().id == id {
        Some(ps.last())
    } else {
        last_with_id(ps.drop_last(), id)
    }
}

/// The index of the first property with identifier `id`, if any.
pub open spec fn first_index_with_id(ps: Seq<PropertyModel>, id: u8) -> Option<int>
    decreases ps.len(),
{
    if ps.len() == 0 {
        None
    } else if ps[0].id == id {
        Some(0)
    } else {
        match first_index_with_id(ps.drop_first(), id) {
            Some(i) => Some(i + 1),
            None => None,
        }
    }
}

/// The one-property list for an optional value, or the empty list.
pub open spec fn opt_property(id: u8, v: Option<PropertyValue>) -> Seq<PropertyModel> {
    match v {
        Some(x) => seq![PropertyModel { id, value: x }],
        None => Seq::empty(),
    }
}

pub open spec fn opt_u8(v: Option<u8>) -> Option<PropertyValue> {
    match v {
        Some(x) => Some(PropertyValue::Byte(x)),
        None => None,
    }
}

pub open spec fn opt_u16(v: Option<u16>) -> Option<PropertyValue> {
    match v {
        Some(x) => Some(PropertyValue::TwoBytes(x)),
        None => None,
    }
}

pub open spec fn opt_u32(v: Option<u32>) -> Option<PropertyValue> {
    match v {
        Some(x) => Some(PropertyValue::FourBytes(x)),
        None => None,
    }
}

pub open spec fn opt_vbi(v: Option<u32>) -> Option<PropertyValue> {
    match v {
        Some(x) => Some(PropertyValue::VarInt(x)),
        None => None,
    }
}

pub open spec fn opt_text(v: Option<Seq<char>>) -> Option<PropertyValue> {
    match v {
        Some(x) => Some(PropertyValue::Text(x)),
        None => None,
    }
}

pub open spec fn opt_pair(v: Option<(Seq<char>, Seq<char>)>) -> Option<PropertyValue> {
    match v {
        Some(x) => Some(PropertyValue::TextPair(x.0, x.1)),
        None => None,
    }
}

/// A string carried as binary data: its UTF-8 bytes.
pub open spec fn opt_text_binary(v: Option<Seq<char>>) -> Option<PropertyValue> {
    match v {
        Some(x) => Some(PropertyValue::Binary(encode_utf8(x))),
        None => None,
    }
}

/// Decoding optional binary data as a UTF-8 string.
pub open spec fn opt_utf8(v: Option<Seq<u8>>) -> Result<Option<Seq<char>>, crate::common::data_types::MqttError> {
    match v {
        None => Ok(None),
        Some(b) => match data_types::utf8_spec(b) {
            Ok(c) => Ok(Some(c)),
            Err(e) => Err(e),
        },
    }
}

/// What the value getters of a property return, by kind.
pub open spec fn as_u8(p: Option<PropertyModel>) -> Option<u8> {
    match p {
        Some(PropertyModel { value: PropertyValue::Byte(x), .. }) => Some(x),
        _ => None,
    }
}

pub open spec fn as_u16(p: Option<PropertyModel>) -> Option<u16> {
    match p {
        Some(PropertyModel { value: PropertyValue::TwoBytes(x), .. }) => Some(x),
        _ => None,
    }
}

pub open spec fn as_u32(p: Option<PropertyModel>) -> Option<u32> {
    match p {
        Some(PropertyModel { value: PropertyValue::FourBytes(x), .. }) => Some(x),
        _ => None,
    }
}

pub open spec fn as_vbi(p: Option<PropertyModel>) -> Option<u32> {
    match p {
        Some(PropertyModel { value: PropertyValue::VarInt(x), .. }) => Some(x),
        _ => None,
    }
}

pub open spec fn as_text(p: Option<PropertyModel>) -> Option<Seq<char>> {
    match p {
        Some(PropertyModel { value: PropertyValue::Text(x), .. }) => Some(x),
        _ => None,
    }
}

pub open spec fn as_binary(p: Option<PropertyModel>) -> Option<Seq<u8>> {
    match p {
        Some(PropertyModel { value: PropertyValue::Binary(x), .. }) => Some(x),
        _ => None,
    }
}

pub open spec fn as_pair(p: Option<PropertyModel>) -> Option<(Seq<char>, Seq<char>)> {
    match p {
        Some(PropertyModel { value: PropertyValue::TextPair(a, b), .. }) => Some((a, b)),
        _ => None,
    }
}

// ---------------------------------------------------------------------------
// Lemmas
// ---------------------------------------------------------------------------

pub proof fn lemma_properties_bytes_push(ps: Seq<PropertyModel>, p: PropertyModel)
    ensures
        properties_bytes(ps.push(p)) == properties_bytes(ps) + property_bytes(p),
    decreases ps.len(),
{
    if ps.len() == 0 {
        assert(ps.push(p).drop_first() =~= Seq::<PropertyModel>::empty());
        assert(ps.push(p)[0] == p);
        assert(properties_bytes(Seq::<PropertyModel>::empty()) =~= Seq::<u8>::empty());
        assert(properties_bytes(ps.push(p)) =~= property_bytes(p));
    } else {
        lemma_properties_bytes_push(ps.drop_first(), p);
        assert(ps.push(p).drop_first() =~= ps.drop_first().push(p));
        assert(properties_bytes(ps.push(p)) =~= property_bytes(ps[0]) + (properties_bytes(
            ps.drop_first(),
        ) + property_bytes(p)));
    }
}

pub proof fn lemma_properties_bytes_concat(a: Seq<PropertyModel>, b: Seq<PropertyModel>)
    ensures
        properties_bytes(a + b) == properties_bytes(a) + properties_bytes(b),
    decreases a.len(),
{
    if a.len() == 0 {
        assert(a + b =~= b);
        assert(properties_bytes(a) + properties_bytes(b) =~= properties_bytes(b));
    } else {
        lemma_properties_bytes_concat(a.drop_first(), b);
        assert((a + b).drop_first() =~= a.drop_first() + b);
        assert(properties_bytes(a + b) =~= property_bytes(a[0]) + (properties_bytes(
            a.drop_first(),
        ) + properties_bytes(b)));
    }
}

proof fn lemma_text_at(buf: Seq<u8>, pos: int, s: Seq<char>)
    requires
        0 <= pos,
        encode_utf8(s).len() <= u16::MAX,
        pos + data_types::text_bytes(s).len() <= buf.len(),
        buf.subrange(pos, pos + data_types::text_bytes(s).len()) == data_types::text_bytes(s),
    ensures
        text_at(buf, pos) == ValueStep::Value(PropertyValue::Text(s), pos + data_types::text_bytes(s).len()),
{
    let e = encode_utf8(s);
    let n = e.len() as int;
    data_types::lemma_be16_roundtrip(n as u16);
    assert(buf[pos] == data_types::text_bytes(s)[0]);
    assert(buf[pos + 1] == data_types::text_bytes(s)[1]);
    assert(buf.subrange(pos + 2, pos + 2 + n) =~= e) by {
        assert forall|j: int| 0 <= j < n implies buf.subrange(pos + 2, pos + 2 + n)[j] == e[j] by {
            assert(buf[pos + 2 + j] == data_types::text_bytes(s)[2 + j]);
        }
    }
}

/// Decoding the bytes of a Variable Byte Integer gives its value back.
pub proof fn lemma_vbi_scan_bytes(s: Seq<u8>, pos: int, value: int, mult: int, i: nat, w: nat)
    requires
        i <= 4,
        mult == data_types::pow128(i),
        w < data_types::pow128((5 - i) as nat),
        0 <= value,
        value + w * mult <= u32::MAX,
        0 <= pos,
        pos + data_types::vbi_bytes(w).len() <= s.len(),
        s.subrange(pos, pos + data_types::vbi_bytes(w).len()) == data_types::vbi_bytes(w),
    ensures
        data_types::vbi_scan(s, pos, value, mult) == (value + w * mult, pos + data_types::vbi_bytes(w).len()),
        data_types::vbi_scan_safe(s, pos, value, mult),
    decreases w,
{
    reveal_with_fuel(data_types::pow128, 6);
    assert(s[pos] == data_types::vbi_bytes(w)[0]);
    if w < 128 {
        assert(s[pos] == w);
        assert(w * mult >= 0) by (nonlinear_arith)
            requires
                w >= 0,
                mult >= 0,
        ;
    } else {
        let w2 = w / 128;
        assert(data_types::vbi_bytes(w) == seq![(w % 128 + 128) as u8] + data_types::vbi_bytes(w2));
        assert(s[pos] % 128 == w % 128);
        assert(i <= 3) by {
            if i == 4 {
                assert(data_types::pow128(1) == 128);
            }
        }
        assert(data_types::pow128(i + 1) == 128 * mult);
        assert(w2 < data_types::pow128((5 - (i + 1)) as nat)) by {
            assert(data_types::pow128((5 - i) as nat) == 128 * data_types::pow128((5 - (i + 1)) as nat));
        }
        assert(s.subrange(pos + 1, pos + 1 + data_types::vbi_bytes(w2).len()) =~= data_types::vbi_bytes(w2)) by {
            assert forall|j: int| 0 <= j < data_types::vbi_bytes(w2).len() implies s.subrange(
                pos + 1,
                pos + 1 + data_types::vbi_bytes(w2).len(),
            )[j] == data_types::vbi_bytes(w2)[j] by {
                assert(s[pos + 1 + j] == data_types::vbi_bytes(w)[1 + j]);
            }
        }
        assert(w == (w % 128) + 128 * w2);
        assert((w % 128) * mult + w2 * (128 * mult) == w * mult) by (nonlinear_arith)
            requires
                w == (w % 128) + 128 * w2,
        ;
        assert(0 <= (w % 128) * mult <= w * mult) by (nonlinear_arith)
            requires
                w % 128 <= w,
                mult >= 0,
                w >= 0,
        ;
        assert(mult <= 2097152) by {
            if i <= 3 {
                assert(data_types::pow128(3) == 2097152);
                lemma_pow128_mono(i, 3);
            }
        }
        lemma_vbi_scan_bytes(s, pos + 1, value + (w % 128) * mult, 128 * mult, i + 1, w2);
    }
}

proof fn lemma_pow128_mono(i: nat, j: nat)
    requires
        i <= j,
    ensures
        data_types::pow128(i) <= data_types::pow128(j),
    decreases j - i,
{
    if i < j {
        lemma_pow128_mono(i, (j - 1) as nat);
        assert(data_types::pow128(j) == 128 * data_types::pow128((j - 1) as nat));
    }
}

/// The Variable Byte Integer encoding of a 32-bit value fits in five bytes and decodes back.
#[verifier::spinoff_prover]
#[verifier::rlimit(30)]
pub proof fn lemma_vbi_roundtrip(s: Seq<u8>, pos: int, w: u32)
    requires
        0 <= pos,
        pos + data_types::vbi_bytes(w as nat).len() <= s.len(),
        s.subrange(pos, pos + data_types::vbi_bytes(w as nat).len()) == data_types::vbi_bytes(w as nat),
    ensures
        data_types::vbi_scan(s, pos, 0, 1) == (w as int, pos + data_types::vbi_bytes(w as nat).len()),
        data_types::vbi_scan_safe(s, pos, 0, 1),
{
    reveal_with_fuel(data_types::pow128, 6);
    assert(data_types::pow128(5) == 34359738368);
    lemma_vbi_scan_bytes(s, pos, 0, 1, 0, w as nat);
}

pub proof fn lemma_vbi_bytes_len(w: nat)
    ensures
        data_types::vbi_bytes(w).len() >= 1,
    decreases w,
{
    if w >= 128 {
        lemma_vbi_bytes_len(w / 128);
    }
}

/// Decoding the bytes of an encodable value gives the value back, with the cursor after it.
#[verifier::spinoff_prover]
#[verifier::rlimit(30)]
pub proof fn lemma_value_roundtrip(buf: Seq<u8>, pos: int, v: PropertyValue)
    requires
        0 <= pos,
        value_fits(v),
        pos + value_bytes(v).len() <= buf.len(),
        buf.subrange(pos, pos + value_bytes(v).len()) == value_bytes(v),
    ensures
        value_at(kind_of(v), buf, pos) == ValueStep::Value(v, pos + value_bytes(v).len()),
{
    let e = value_bytes(v);
    assert forall|j: int| 0 <= j < e.len() implies buf[pos + j] == e[j] by {
        assert(buf.subrange(pos, pos + e.len())[j] == e[j]);
    }
    match v {
        PropertyValue::Byte(b) => {
            assert(buf.subrange(pos, pos + e.len())[0] == e[0]);
            assert(buf[pos] == b);
        },
        PropertyValue::TwoBytes(x) => {
            data_types::lemma_be16_roundtrip(x);
            assert(buf[pos] == e[0] && buf[pos + 1] == e[1]);
        },
        PropertyValue::FourBytes(x) => {
            data_types::lemma_be32_roundtrip(x);
            assert(buf[pos] == e[0] && buf[pos + 1] == e[1] && buf[pos + 2] == e[2] && buf[pos
                + 3] == e[3]);
        },
        PropertyValue::VarInt(x) => {
            lemma_vbi_roundtrip(buf, pos, x);
        },
        PropertyValue::Text(s) => {
            lemma_text_at(buf, pos, s);
        },
        PropertyValue::Binary(b) => {
            let n = b.len() as int;
            data_types::lemma_be16_roundtrip(n as u16);
            assert(buf[pos] == e[0] && buf[pos + 1] == e[1]);
            assert(buf.subrange(pos + 2, pos + 2 + n) =~= b) by {
                assert forall|j: int| 0 <= j < n implies buf.subrange(pos + 2, pos + 2 + n)[j]
                    == b[j] by {
                    assert(buf[pos + 2 + j] == e[2 + j]);
                }
            }
        },
        PropertyValue::TextPair(a, b) => {
            let ta = data_types::text_bytes(a);
            let tb = data_types::text_bytes(b);
            assert(buf.subrange(pos, pos + ta.len()) =~= ta) by {
                assert forall|j: int| 0 <= j < ta.len() implies buf.subrange(pos, pos + ta.len())[j]
                    == ta[j] by {
                    assert(buf[pos + j] == e[j]);
                }
            }
            lemma_text_at(buf, pos, a);
            assert(buf.subrange(pos + ta.len(), pos + ta.len() + tb.len()) =~= tb) by {
                assert forall|j: int| 0 <= j < tb.len() implies buf.subrange(
                    pos + ta.len(),
                    pos + ta.len() + tb.len(),
                )[j] == tb[j] by {
                    assert(buf[pos + ta.len() + j] == e[ta.len() + j]);
                }
            }
            lemma_text_at(buf, pos + ta.len(), b);
        },
    }
}

pub proof fn lemma_value_bytes_len(v: PropertyValue)
    ensures
        value_bytes(v).len() >= 1,
{
    match v {
        PropertyValue::VarInt(x) => {
            lemma_vbi_bytes_len(x as nat);
        },
        _ => {},
    }
}

/// Decoding the bytes of a list of encodable properties gives the list back.
#[verifier::spinoff_prover]
#[verifier::rlimit(30)]
pub proof fn lemma_properties_roundtrip(t: PropertyTable, buf: Seq<u8>, pos: int, ps: Seq<
    PropertyModel,
>)
    requires
        0 <= pos,
        all_encodable(t, ps),
        buf.len() == pos + properties_bytes(ps).len(),
        buf.subrange(pos, buf.len() as int) == properties_bytes(ps),
    ensures
        properties_at(t, buf, pos) == ListStep::Done(ps),
    decreases ps.len(),
{
    if ps.len() == 0 {
        assert(ps =~= Seq::<PropertyModel>::empty());
    } else {
        let p = ps[0];
        let e = properties_bytes(ps);
        let vb = value_bytes(p.value);
        assert(encodable(t, p));
        lemma_value_bytes_len(p.value);
        assert(e == seq![p.id] + vb + properties_bytes(ps.drop_first()));
        assert(buf[pos] == p.id) by {
            assert(buf.subrange(pos, buf.len() as int)[0] == e[0]);
        }
        assert(buf.subrange(pos + 1, pos + 1 + vb.len()) =~= vb) by {
            assert forall|j: int| 0 <= j < vb.len() implies buf.subrange(pos + 1, pos + 1 + vb.len())[j]
                == vb[j] by {
                assert(buf.subrange(pos, buf.len() as int)[1 + j] == e[1 + j]);
            }
        }
        lemma_value_roundtrip(buf, pos + 1, p.value);
        let np = pos + 1 + vb.len();
        assert(buf.subrange(np, buf.len() as int) =~= properties_bytes(ps.drop_first())) by {
            assert forall|j: int| 0 <= j < buf.len() - np implies buf.subrange(
                np,
                buf.len() as int,
            )[j] == properties_bytes(ps.drop_first())[j] by {
                assert(buf.subrange(pos, buf.len() as int)[1 + vb.len() + j] == e[1 + vb.len()
                    + j]);
            }
        }
        assert forall|i: int| 0 <= i < ps.drop_first().len() implies #[trigger] encodable(
            t,
            ps.drop_first()[i],
        ) by {
            assert(encodable(t, ps[i + 1]));
        }
        lemma_properties_roundtrip(t, buf, np, ps.drop_first());
        assert(seq![PropertyModel { id: p.id, value: p.value }] + ps.drop_first() =~= ps);
    }
}

/// The last property with an identifier, in a concatenation.
pub proof fn lemma_last_with_id_concat(a: Seq<PropertyModel>, b: Seq<PropertyModel>, id: u8)
    ensures
        last_with_id(a + b, id) == (match last_with_id(b, id) {
            Some(p) => Some(p),
            None => last_with_id(a, id),
        }),
    decreases b.len(),
{
    if b.len() == 0 {
        assert(a + b =~= a);
    } else {
        assert((a + b).drop_last() =~= a + b.drop_last());
        assert((a + b).last() == b.last());
        lemma_last_with_id_concat(a, b.drop_last(), id);
    }
}


// ---------------------------------------------------------------------------
// Lists built from optional fields ("slots")
// ---------------------------------------------------------------------------

/// A slot: a property identifier and the value a packet field gives it, if any.
pub type Slot = (u8, Option<PropertyValue>);

/// The properties of the filled slots, in slot order.
pub open spec fn slot_list(slots: Seq<Slot>) -> Seq<PropertyModel>
    decreases slots.len(),
{
    if slots.len() == 0 {
        Seq::empty()
    } else {
        slot_list(slots.drop_last()) + opt_property(slots.last().0, slots.last().1)
    }
}

/// Every filled slot carries the kind of value its identifier takes in the table.
pub open spec fn slots_typed(t: PropertyTable, slots: Seq<Slot>) -> bool {
    forall|j: int|
        0 <= j < slots.len() ==> ((#[trigger] slots[j]).1 matches Some(x) ==> id_kind(t, slots[j].0)
            == Some(kind_of(x)))
}

/// No two slots share an identifier.
pub open spec fn slots_distinct(slots: Seq<Slot>) -> bool {
    forall|i: int, j: int|
        0 <= i < slots.len() && 0 <= j < slots.len() && i != j ==> (#[trigger] slots[i]).0 != (
        #[trigger] slots[j]).0
}

/// The properties of the filled slots fit in a properties block.
pub open spec fn slots_fit(slots: Seq<Slot>) -> bool {
    properties_bytes(slot_list(slots)).len() <= u16::MAX
}

/// The property a slot holds, if filled.
pub open spec fn slot_property(s: Slot) -> Option<PropertyModel> {
    match s.1 {
        Some(x) => Some(PropertyModel { id: s.0, value: x }),
        None => None,
    }
}

pub proof fn lemma_opt_property_bytes(id: u8, v: Option<PropertyValue>)
    ensures
        properties_bytes(opt_property(id, v)).len() == (match v {
            Some(x) => 1 + value_bytes(x).len(),
            None => 0,
        }),
{
    match v {
        Some(x) => {
            let l = opt_property(id, v);
            assert(l.drop_first() =~= Seq::<PropertyModel>::empty());
            assert(properties_bytes(l.drop_first()) =~= Seq::<u8>::empty());
        },
        None => {},
    }
}

/// One step of building the list of a packet's properties: the list of the first `i + 1`
/// slots is the list of the first `i` with slot `i` appended.
pub proof fn lemma_slot_step(slots: Seq<Slot>, i: int)
    requires
        0 <= i < slots.len(),
    ensures
        slot_list(slots.take(i + 1)) == slot_list(slots.take(i)) + opt_property(
            slots[i].0,
            slots[i].1,
        ),
        properties_bytes(slot_list(slots.take(i + 1))).len() == properties_bytes(
            slot_list(slots.take(i)),
        ).len() + properties_bytes(opt_property(slots[i].0, slots[i].1)).len(),
        properties_bytes(slot_list(slots.take(i + 1))).len() <= properties_bytes(
            slot_list(slots),
        ).len(),
        properties_bytes(opt_property(slots[i].0, slots[i].1)).len() == (match slots[i].1 {
            Some(x) => 1 + value_bytes(x).len(),
            None => 0,
        }),
        slots[i].1 matches Some(x) ==> slot_list(slots.take(i + 1)) == slot_list(
            slots.take(i),
        ).push(PropertyModel { id: slots[i].0, value: x }),
        slots[i].1 is None ==> slot_list(slots.take(i + 1)) == slot_list(slots.take(i)),
{
    assert(slots.take(i + 1).drop_last() =~= slots.take(i));
    lemma_properties_bytes_concat(
        slot_list(slots.take(i)),
        opt_property(slots[i].0, slots[i].1),
    );
    lemma_opt_property_bytes(slots[i].0, slots[i].1);
    lemma_slot_list_prefix_len(slots, i + 1);
    match slots[i].1 {
        Some(x) => {
            assert(slot_list(slots.take(i)) + opt_property(slots[i].0, slots[i].1)
                =~= slot_list(slots.take(i)).push(PropertyModel { id: slots[i].0, value: x }));
        },
        None => {
            assert(slot_list(slots.take(i)) + opt_property(slots[i].0, slots[i].1)
                =~= slot_list(slots.take(i)));
        },
    }
}

/// The properties of a prefix of the slots take no more bytes than those of all slots.
pub proof fn lemma_slot_list_prefix_len(slots: Seq<Slot>, n: int)
    requires
        0 <= n <= slots.len(),
    ensures
        properties_bytes(slot_list(slots.take(n))).len() <= properties_bytes(
            slot_list(slots),
        ).len(),
    decreases slots.len() - n,
{
    if n < slots.len() {
        lemma_slot_list_prefix_len(slots, n + 1);
        assert(slots.take(n + 1).drop_last() =~= slots.take(n));
        lemma_properties_bytes_concat(
            slot_list(slots.take(n)),
            opt_property(slots[n].0, slots[n].1),
        );
    } else {
        assert(slots.take(n) =~= slots);
    }
}

/// The empty prefix of the slots gives no properties.
pub proof fn lemma_slot_list_empty(slots: Seq<Slot>)
    ensures
        slot_list(slots.take(0)) == Seq::<PropertyModel>::empty(),
        properties_bytes(slot_list(slots.take(0))).len() == 0,
{
    assert(slots.take(0) =~= Seq::<Slot>::empty());
}

/// A list built from slots holds at most one property per slot.
pub proof fn lemma_slot_list_len(slots: Seq<Slot>)
    ensures
        slot_list(slots).len() <= slots.len(),
    decreases slots.len(),
{
    if slots.len() > 0 {
        lemma_slot_list_len(slots.drop_last());
    }
}

/// The slots taken whole.
pub proof fn lemma_slot_list_all(slots: Seq<Slot>)
    ensures
        slot_list(slots.take(slots.len() as int)) == slot_list(slots),
{
    assert(slots.take(slots.len() as int) =~= slots);
}

/// Every value of a list that fits in a properties block fits its length prefix.
pub proof fn lemma_list_values_fit(ps: Seq<PropertyModel>, i: int)
    requires
        0 <= i < ps.len(),
    ensures
        1 + value_bytes(ps[i].value).len() <= properties_bytes(ps).len(),
    decreases ps.len(),
{
    if i > 0 {
        lemma_list_values_fit(ps.drop_first(), i - 1);
    }
}

proof fn lemma_value_fits_of_len(v: PropertyValue)
    requires
        value_bytes(v).len() <= u16::MAX,
    ensures
        value_fits(v),
{
}

/// A list of typed slots that fits in a properties block decodes back to itself.
pub proof fn lemma_slots_encodable(t: PropertyTable, slots: Seq<Slot>)
    requires
        slots_typed(t, slots),
        slots_fit(slots),
    ensures
        all_encodable(t, slot_list(slots)),
    decreases slots.len(),
{
    let l = slot_list(slots);
    if slots.len() > 0 {
        let init = slots.drop_last();
        lemma_properties_bytes_concat(slot_list(init), opt_property(slots.last().0, slots.last().1));
        assert forall|j: int| 0 <= j < init.len() implies ((#[trigger] init[j]).1 matches Some(x)
            ==> id_kind(t, init[j].0) == Some(kind_of(x))) by {
            assert(init[j] == slots[j]);
        }
        lemma_slots_encodable(t, init);
        assert forall|i: int| 0 <= i < l.len() implies #[trigger] encodable(t, l[i]) by {
            lemma_list_values_fit(l, i);
            lemma_value_fits_of_len(l[i].value);
            if i < slot_list(init).len() {
                assert(l[i] == slot_list(init)[i]);
                assert(encodable(t, slot_list(init)[i]));
            } else {
                assert(slots[slots.len() - 1] == slots.last());
            }
        }
    }
}

pub proof fn lemma_last_opt(id: u8, v: Option<PropertyValue>, k: u8)
    ensures
        last_with_id(opt_property(id, v), k) == (if id == k {
            slot_property((id, v))
        } else {
            None
        }),
{
    match v {
        Some(x) => {
            let o = opt_property(id, v);
            assert(o.last() == PropertyModel { id, value: x });
            assert(o.drop_last() =~= Seq::<PropertyModel>::empty());
            assert(last_with_id(o.drop_last(), k) is None);
        },
        None => {},
    }
}

/// In a list built from slots with distinct identifiers, the last property with a slot's
/// identifier is the one that slot holds.
pub proof fn lemma_slot_lookup(slots: Seq<Slot>, j: int)
    requires
        slots_distinct(slots),
        0 <= j < slots.len(),
    ensures
        last_with_id(slot_list(slots), slots[j].0) == slot_property(slots[j]),
    decreases slots.len(),
{
    let init = slots.drop_last();
    let k = slots[j].0;
    let last = slots.last();
    lemma_last_with_id_concat(slot_list(init), opt_property(last.0, last.1), k);
    lemma_last_opt(last.0, last.1, k);
    if j == slots.len() - 1 {
        assert forall|a: int| 0 <= a < init.len() implies (#[trigger] init[a]).0 != k by {
            assert(init[a] == slots[a]);
        }
        if last.1 is None {
            lemma_slot_absent(init, k);
        }
    } else {
        assert(slots[slots.len() - 1].0 != k);
        assert forall|a: int, b: int|
            0 <= a < init.len() && 0 <= b < init.len() && a != b implies (#[trigger] init[a]).0
            != (#[trigger] init[b]).0 by {
            assert(init[a] == slots[a] && init[b] == slots[b]);
        }
        assert(init[j] == slots[j]);
        lemma_slot_lookup(init, j);
    }
}

/// An identifier held by no slot is absent from the list.
pub proof fn lemma_slot_absent(slots: Seq<Slot>, k: u8)
    requires
        forall|j: int| 0 <= j < slots.len() ==> (#[trigger] slots[j]).0 != k,
    ensures
        last_with_id(slot_list(slots), k) is None,
    decreases slots.len(),
{
    if slots.len() > 0 {
        let init = slots.drop_last();
        let last = slots.last();
        lemma_last_with_id_concat(slot_list(init), opt_property(last.0, last.1), k);
        assert(slots[slots.len() - 1].0 != k);
        lemma_last_opt(last.0, last.1, k);
        assert forall|j: int| 0 <= j < init.len() implies (#[trigger] init[j]).0 != k by {
            assert(init[j] == slots[j]);
        }
        lemma_slot_absent(init, k);
    }
}

/// The last property with an identifier, one more property in.
pub proof fn lemma_last_with_id_step(ps: Seq<PropertyModel>, i: int, id: u8)
    requires
        0 <= i < ps.len(),
    ensures
        last_with_id(ps.take(i + 1), id) == (if ps[i].id == id {
            Some(ps[i])
        } else {
            last_with_id(ps.take(i), id)
        }),
{
    assert(ps.take(i + 1).drop_last() =~= ps.take(i));
}

pub proof fn lemma_take_all(ps: Seq<PropertyModel>)
    ensures
        ps.take(ps.len() as int) == ps,
{
    assert(ps.take(ps.len() as int) =~= ps);
}

} // verus!
