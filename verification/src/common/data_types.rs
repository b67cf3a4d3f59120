use vstd::prelude::*;
use vstd::utf8::*;
use vstd::string::*;
use vstd::slice::{slice_subrange, slice_to_vec};

verus! {

broadcast use {vstd::utf8::encode_utf8_valid_utf8, vstd::utf8::encode_utf8_decode_utf8};

/// Errors reported while reading, building or writing MQTT packets.
#[derive(Debug, Clone, Copy, PartialEq, Eq, Structural)]
pub enum MqttError {
    /// The stream ended before the requested bytes could be read.
    UnexpectedEof,
    /// A string field does not hold valid UTF-8.
    InvalidUtf8,
    /// A property identifier does not belong to the requested property kind.
    InvalidPropertyId,
    /// A Variable Byte Integer uses more than four bytes.
    MalformedVariableByteInteger,
    /// A flag parameter is neither `true` nor `false`.
    InvalidFlag,
    /// A numeric parameter is not a decimal number in range.
    InvalidNumber,
    /// A remaining length that the packet cannot have: not zero for a packet without
    /// payload, or above 65535, the largest one a fixed header holds here.
    InvalidRemainingLength,
    /// The packet type is not handled.
    UnknownPacket,
}

// ---------------------------------------------------------------------------
// Byte-level encodings
// ---------------------------------------------------------------------------

/// Big-endian two-byte encoding of `n` (taken modulo 2^16).
pub open spec fn be16(n: int) -> Seq<u8> {
    seq![((n / 256) % 256) as u8, (n % 256) as u8]
}

/// Big-endian four-byte encoding of `n` (taken modulo 2^32).
pub open spec fn be32(n: int) -> Seq<u8> {
    seq![
        ((n / 0x1000000) % 256) as u8,
        ((n / 0x10000) % 256) as u8,
        ((n / 256) % 256) as u8,
        (n % 256) as u8,
    ]
}

/// The value of two big-endian bytes.
pub open spec fn u16_of(b0: u8, b1: u8) -> u16 {
    (b0 * 256 + b1) as u16
}

/// The value of four big-endian bytes.
pub open spec fn u32_of(b0: u8, b1: u8, b2: u8, b3: u8) -> u32 {
    (b0 * 0x1000000 + b1 * 0x10000 + b2 * 256 + b3) as u32
}

#[verifier::spinoff_prover]
#[verifier::rlimit(30)]
pub proof fn lemma_be16_roundtrip(n: u16)
    ensures
        be16(n as int).len() == 2,
        u16_of(be16(n as int)[0], be16(n as int)[1]) == n,
{
}

#[verifier::spinoff_prover]
#[verifier::rlimit(30)]
pub proof fn lemma_be32_roundtrip(n: u32)
    ensures
        be32(n as int).len() == 4,
        u32_of(be32(n as int)[0], be32(n as int)[1], be32(n as int)[2], be32(n as int)[3]) == n,
{
}

/// Two-byte integers are big-endian: the first byte is the high byte, and two bytes read
/// as the high byte times 256 plus the low byte.
pub proof fn lemma_two_byte_big_endian(n: u16, b0: u8, b1: u8)
    ensures
        be16(n as int)[0] as int * 256 + be16(n as int)[1] as int == n as int,
        be16(n as int)[0] as int == n as int / 256,
        u16_of(b0, b1) as int == b0 as int * 256 + b1 as int,
{
}

/// Four-byte integers are big-endian: the bytes are the base-256 digits of the value, most
/// significant first, and four bytes read back as those digits.
pub proof fn lemma_four_byte_big_endian(n: u32, b0: u8, b1: u8, b2: u8, b3: u8)
    ensures
        be32(n as int)[0] as int * 0x1000000 + be32(n as int)[1] as int * 0x10000 + be32(n as int)[2] as int * 256 + be32(n as int)[3] as int == n as int,
        be32(n as int)[0] as int == n as int / 0x1000000,
        u32_of(b0, b1, b2, b3) as int == b0 as int * 0x1000000 + b1 as int * 0x10000 + b2 as int * 256 + b3 as int,
{
}

/// A length-prefixed UTF-8 string: two length bytes, then the encoded characters.
pub open spec fn text_bytes(s: Seq<char>) -> Seq<u8> {
    be16(encode_utf8(s).len() as int) + encode_utf8(s)
}

/// Length-prefixed binary data: two length bytes, then the data.
pub open spec fn binary_bytes(b: Seq<u8>) -> Seq<u8> {
    be16(b.len() as int) + b
}

/// The Variable Byte Integer encoding of `v`: seven bits per byte, least significant
/// group first, the high bit set on every byte but the last.
pub open spec fn vbi_bytes(v: nat) -> Seq<u8>
    decreases v,
{
    if v < 128 {
        seq![v as u8]
    } else {
        seq![(v % 128 + 128) as u8] + vbi_bytes(v / 128)
    }
}

/// The value that Variable Byte Integer digits stand for: the low seven bits of the byte at
/// position `i` count `128^i` times.
pub open spec fn vbi_value(b: Seq<u8>) -> nat
    decreases b.len(),
{
    if b.len() == 0 {
        0
    } else {
        (b[0] % 128) as nat + 128 * vbi_value(b.drop_first())
    }
}

/// The encoding of a value is a Variable Byte Integer of that value: every byte but the
/// last carries the continuation bit, the last does not, and the seven-bit groups, least
/// significant first, add up to the value.
pub proof fn lemma_vbi_bytes_shape(v: nat)
    ensures
        vbi_value(vbi_bytes(v)) == v,
        vbi_bytes(v).len() >= 1,
        vbi_bytes(v).last() < 128,
        forall|i: int| 0 <= i < vbi_bytes(v).len() - 1 ==> #[trigger] vbi_bytes(v)[i] >= 128,
    decreases v,
{
    if v < 128 {
        assert(vbi_bytes(v).drop_first() =~= Seq::<u8>::empty());
        assert(vbi_value(vbi_bytes(v).drop_first()) == 0);
    } else {
        let rest = vbi_bytes(v / 128);
        lemma_vbi_bytes_shape(v / 128);
        assert(vbi_bytes(v) == seq![(v % 128 + 128) as u8] + rest);
        assert(vbi_bytes(v).drop_first() =~= rest);
        assert(vbi_bytes(v)[0] % 128 == v % 128);
        assert(vbi_value(vbi_bytes(v)) == (v % 128) + 128 * vbi_value(rest));
        assert(v == v % 128 + 128 * (v / 128));
        assert forall|i: int| 0 <= i < vbi_bytes(v).len() - 1 implies #[trigger] vbi_bytes(v)[i]
            >= 128 by {
            if i > 0 {
                assert(vbi_bytes(v)[i] == rest[i - 1]);
            }
        }
    }
}

/// The bytes still to be written by the encoder when `v` is left to encode.
pub open spec fn vbi_tail(v: nat) -> Seq<u8> {
    if v == 0 {
        Seq::empty()
    } else {
        vbi_bytes(v)
    }
}

pub open spec fn pow128(i: nat) -> nat
    decreases i,
{
    if i == 0 {
        1
    } else {
        128 * pow128((i - 1) as nat)
    }
}

/// The decoder that reads a Variable Byte Integer out of a buffer, from position `pos`,
/// having accumulated `value` with the current `multiplier`. It stops after a byte whose
/// high bit is clear, or after the byte read with multiplier 128^4. Returns the value
/// and the position just after the last byte read.
pub open spec fn vbi_scan(s: Seq<u8>, pos: int, value: int, multiplier: int) -> (int, int)
    decreases 268435456 - multiplier,
{
    if multiplier <= 0 || pos < 0 || pos >= s.len() {
        (value, pos)
    } else {
        let v = value + (s[pos] % 128) * multiplier;
        if multiplier > 2097152 || s[pos] < 128 {
            (v, pos + 1)
        } else {
            vbi_scan(s, pos + 1, v, multiplier * 128)
        }
    }
}

/// The buffer decoder stays inside the buffer and its arithmetic stays within `u32`.
pub open spec fn vbi_scan_safe(s: Seq<u8>, pos: int, value: int, multiplier: int) -> bool
    decreases 268435456 - multiplier,
{
    if multiplier <= 0 {
        false
    } else {
        &&& 0 <= pos < s.len()
        &&& (s[pos] % 128) * multiplier <= u32::MAX
        &&& value + (s[pos] % 128) * multiplier <= u32::MAX
        &&& (multiplier > 2097152 || s[pos] < 128 || vbi_scan_safe(
            s,
            pos + 1,
            value + (s[pos] % 128) * multiplier,
            multiplier * 128,
        ))
    }
}

/// The stream decoder: like the buffer decoder, but a byte read with multiplier 128^4 is
/// an error, and a stream that ends early is an error. Returns the outcome and the number
/// of bytes taken from the stream.
pub open spec fn vbi_read(s: Seq<u8>, pos: int, value: int, multiplier: int) -> (
    Result<u32, MqttError>,
    int,
)
    decreases 268435456 - multiplier,
{
    if multiplier <= 0 || pos < 0 {
        (Err(MqttError::MalformedVariableByteInteger), pos)
    } else if pos >= s.len() {
        (Err(MqttError::UnexpectedEof), s.len() as int)
    } else if multiplier > 2097152 {
        (Err(MqttError::MalformedVariableByteInteger), pos + 1)
    } else {
        let v = value + (s[pos] % 128) * multiplier;
        if s[pos] < 128 {
            (Ok(v as u32), pos + 1)
        } else {
            vbi_read(s, pos + 1, v, multiplier * 128)
        }
    }
}

/// Reading back the encoding of a value below 128^(4 - i), whose bytes stand at `pos`,
/// from a decoder at multiplier 128^i adds the value times the multiplier.
proof fn lemma_vbi_read_bytes(s: Seq<u8>, pos: int, value: int, mult: int, i: nat, w: nat)
    requires
        i <= 3,
        mult == pow128(i),
        w < pow128((4 - i) as nat),
        0 <= pos,
        pos + vbi_bytes(w).len() <= s.len(),
        s.subrange(pos, pos + vbi_bytes(w).len()) == vbi_bytes(w),
    ensures
        vbi_read(s, pos, value, mult) == (
            Ok::<u32, MqttError>((value + w * mult) as u32),
            pos + vbi_bytes(w).len(),
        ),
    decreases w,
{
    reveal_with_fuel(pow128, 5);
    assert(s[pos] == vbi_bytes(w)[0]);
    if w < 128 {
        assert(s[pos] == w);
    } else {
        let w2 = w / 128;
        assert(vbi_bytes(w) == seq![(w % 128 + 128) as u8] + vbi_bytes(w2));
        assert(s[pos] % 128 == w % 128);
        assert(i <= 2) by {
            if i == 3 {
                assert(pow128(1) == 128);
            }
        }
        assert(pow128(i + 1) == 128 * mult);
        assert(w2 < pow128((4 - (i + 1)) as nat)) by {
            assert(pow128((4 - i) as nat) == 128 * pow128((4 - (i + 1)) as nat));
        }
        assert(s.subrange(pos + 1, pos + 1 + vbi_bytes(w2).len()) =~= vbi_bytes(w2)) by {
            assert forall|j: int| 0 <= j < vbi_bytes(w2).len() implies s.subrange(
                pos + 1,
                pos + 1 + vbi_bytes(w2).len(),
            )[j] == vbi_bytes(w2)[j] by {
                assert(s[pos + 1 + j] == vbi_bytes(w)[1 + j]);
            }
        }
        assert(w == (w % 128) + 128 * w2);
        assert((w % 128) * mult + w2 * (128 * mult) == w * mult) by (nonlinear_arith)
            requires
                w == (w % 128) + 128 * w2,
        ;
        lemma_vbi_read_bytes(s, pos + 1, value + (w % 128) * mult, 128 * mult, i + 1, w2);
    }
}

/// The stream decoder reads back what the encoder writes: a value below 2^28 is read from
/// its encoding, and exactly the bytes of the encoding are taken from the stream.
#[verifier::spinoff_prover]
#[verifier::rlimit(30)]
pub proof fn lemma_vbi_decode_roundtrip(w: u32, rest: Seq<u8>)
    requires
        w < 268435456,
    ensures
        vbi_read(vbi_bytes(w as nat) + rest, 0, 0, 1) == (
            Ok::<u32, MqttError>(w),
            vbi_bytes(w as nat).len() as int,
        ),
{
    reveal_with_fuel(pow128, 5);
    let s = vbi_bytes(w as nat) + rest;
    assert(s.subrange(0, vbi_bytes(w as nat).len() as int) =~= vbi_bytes(w as nat));
    lemma_vbi_read_bytes(s, 0, 0, 1, 0, w as nat);
}

// ---------------------------------------------------------------------------
// Stream readers: a stream is a byte slice that shrinks from the front.
// ---------------------------------------------------------------------------

/// Reading `n` bytes from a stream: the bytes and what is left, or an end-of-stream
/// error that drains the stream.
pub open spec fn read_bytes_spec(s: Seq<u8>, n: int) -> (Result<Seq<u8>, MqttError>, Seq<u8>) {
    if 0 <= n <= s.len() {
        (Ok(s.take(n)), s.skip(n))
    } else {
        (Err(MqttError::UnexpectedEof), Seq::empty())
    }
}

pub open spec fn read_byte_spec(s: Seq<u8>) -> (Result<u8, MqttError>, Seq<u8>) {
    if s.len() >= 1 {
        (Ok(s[0]), s.skip(1))
    } else {
        (Err(MqttError::UnexpectedEof), Seq::empty())
    }
}

pub open spec fn read_u16_spec(s: Seq<u8>) -> (Result<u16, MqttError>, Seq<u8>) {
    if s.len() >= 2 {
        (Ok(u16_of(s[0], s[1])), s.skip(2))
    } else {
        (Err(MqttError::UnexpectedEof), Seq::empty())
    }
}

pub open spec fn read_u32_spec(s: Seq<u8>) -> (Result<u32, MqttError>, Seq<u8>) {
    if s.len() >= 4 {
        (Ok(u32_of(s[0], s[1], s[2], s[3])), s.skip(4))
    } else {
        (Err(MqttError::UnexpectedEof), Seq::empty())
    }
}

/// Decoding UTF-8 bytes into characters, or the UTF-8 error.
pub open spec fn utf8_spec(b: Seq<u8>) -> Result<Seq<char>, MqttError> {
    if valid_utf8(b) {
        Ok(decode_utf8(b))
    } else {
        Err(MqttError::InvalidUtf8)
    }
}

/// Reading a UTF-8 string of `len` bytes from a stream.
pub open spec fn read_string_spec(s: Seq<u8>, len: int) -> (Result<Seq<char>, MqttError>, Seq<u8>) {
    if 0 <= len <= s.len() {
        (utf8_spec(s.take(len)), s.skip(len))
    } else {
        (Err(MqttError::UnexpectedEof), Seq::empty())
    }
}

/// Reading a two-byte length, then a UTF-8 string of that length.
pub open spec fn read_text_spec(s: Seq<u8>) -> (Result<Seq<char>, MqttError>, Seq<u8>) {
    let (l, s1) = read_u16_spec(s);
    match l {
        Err(e) => (Err(e), s1),
        Ok(n) => read_string_spec(s1, n as int),
    }
}

/// A byte in front of a stream reads back as itself.
pub proof fn lemma_read_byte_prefix(x: u8, rest: Seq<u8>)
    ensures
        read_byte_spec(seq![x] + rest) == (Ok::<u8, MqttError>(x), rest),
{
    assert((seq![x] + rest).skip(1) =~= rest);
}

/// A two-byte integer in front of a stream reads back as itself.
pub proof fn lemma_read_u16_prefix(x: u16, rest: Seq<u8>)
    ensures
        read_u16_spec(be16(x as int) + rest) == (Ok::<u16, MqttError>(x), rest),
{
    let s = be16(x as int) + rest;
    lemma_be16_roundtrip(x);
    assert(s[0] == be16(x as int)[0] && s[1] == be16(x as int)[1]);
    assert(s.skip(2) =~= rest);
}

/// A length-prefixed string in front of a stream reads back as itself when its UTF-8
/// length fits in the prefix.
pub proof fn lemma_read_text_prefix(c: Seq<char>, rest: Seq<u8>)
    requires
        encode_utf8(c).len() <= u16::MAX,
    ensures
        read_text_spec(text_bytes(c) + rest) == (Ok::<Seq<char>, MqttError>(c), rest),
{
    let e = encode_utf8(c);
    let n = e.len() as u16;
    assert(be16(e.len() as int) == be16(n as int));
    assert(text_bytes(c) + rest =~= be16(n as int) + (e + rest));
    lemma_read_u16_prefix(n, e + rest);
    assert((e + rest).take(n as int) =~= e);
    assert((e + rest).skip(n as int) =~= rest);
}

/// The bytes of an optional string: the length-prefixed string when there is one, nothing
/// otherwise.
pub open spec fn opt_text_bytes(m: Option<Seq<char>>) -> Seq<u8> {
    match m {
        Some(x) => text_bytes(x),
        None => Seq::empty(),
    }
}

/// An optional string fits its length prefix.
pub open spec fn opt_text_fit(m: Option<Seq<char>>) -> bool {
    match m {
        Some(x) => encode_utf8(x).len() <= u16::MAX,
        None => true,
    }
}

/// Reading an optional string: when no two-byte length is left there is none; otherwise it
/// is the UTF-8 string of that length.
pub open spec fn read_opt_text_spec(s: Seq<u8>) -> (Result<Option<Seq<char>>, MqttError>, Seq<u8>) {
    let (l, s1) = read_u16_spec(s);
    match l {
        Err(_) => (Ok(None), s1),
        Ok(n) => {
            let (m, s2) = read_string_spec(s1, n as int);
            match m {
                Err(e) => (Err(e), s2),
                Ok(x) => (Ok(Some(x)), s2),
            }
        },
    }
}

/// Reading a string whose length, when zero or missing, means there is none.
pub open spec fn read_nonzero_text_spec(s: Seq<u8>) -> (Option<Seq<char>>, Seq<u8>) {
    let (l, s1) = read_u16_spec(s);
    match l {
        Ok(n) => if n > 0 {
            let (r, s2) = read_string_spec(s1, n as int);
            match r {
                Ok(x) => (Some(x), s2),
                Err(_) => (None, s2),
            }
        } else {
            (None, s1)
        },
        Err(_) => (None, s1),
    }
}

/// Reading such a string from this stream does not hit a decoding panic: a nonzero length
/// is followed by that many bytes of valid UTF-8.
pub open spec fn read_nonzero_text_safe(s: Seq<u8>) -> bool {
    let (l, s1) = read_u16_spec(s);
    match l {
        Ok(n) => n > 0 ==> read_string_spec(s1, n as int).0 is Ok,
        Err(_) => true,
    }
}

/// A present string that fits reads back as itself whatever follows; an absent one reads
/// back as absent at the end of the stream.
pub proof fn lemma_read_opt_text_prefix(m: Option<Seq<char>>, rest: Seq<u8>)
    requires
        opt_text_fit(m),
        m is None ==> rest.len() == 0,
    ensures
        read_opt_text_spec(opt_text_bytes(m) + rest) == (Ok::<Option<Seq<char>>, MqttError>(m), rest),
{
    match m {
        Some(x) => {
            let e = encode_utf8(x);
            let n = e.len() as u16;
            assert(text_bytes(x) + rest =~= be16(n as int) + (e + rest));
            lemma_read_u16_prefix(n, e + rest);
            assert((e + rest).take(n as int) =~= e);
            assert((e + rest).skip(n as int) =~= rest);
        },
        None => {
            assert(opt_text_bytes(m) + rest =~= rest);
            assert(rest =~= Seq::<u8>::empty());
        },
    }
}

/// A present nonempty string that fits reads back as itself whatever follows; an absent one
/// reads back as absent at the end of the stream.
pub proof fn lemma_read_nonzero_text_prefix(m: Option<Seq<char>>, rest: Seq<u8>)
    requires
        opt_text_fit(m),
        m matches Some(x) ==> x.len() > 0,
        m is None ==> rest.len() == 0,
    ensures
        read_nonzero_text_spec(opt_text_bytes(m) + rest) == (m, rest),
        read_nonzero_text_safe(opt_text_bytes(m) + rest),
{
    match m {
        Some(x) => {
            let e = encode_utf8(x);
            let n = e.len() as u16;
            assert(decode_utf8(encode_utf8(x)) == x);
            if e.len() == 0 {
                assert(e =~= Seq::<u8>::empty());
                assert(decode_utf8(Seq::<u8>::empty()) =~= Seq::<char>::empty());
            }
            assert(text_bytes(x) + rest =~= be16(n as int) + (e + rest));
            lemma_read_u16_prefix(n, e + rest);
            assert((e + rest).take(n as int) =~= e);
            assert((e + rest).skip(n as int) =~= rest);
        },
        None => {
            assert(opt_text_bytes(m) + rest =~= rest);
            assert(rest =~= Seq::<u8>::empty());
        },
    }
}

/// The view of a string result.
pub open spec fn string_result(r: Result<String, MqttError>) -> Result<Seq<char>, MqttError> {
    match r {
        Ok(s) => Ok(s@),
        Err(e) => Err(e),
    }
}

/// Calls `String::from_utf8`. Trusted: it returns a string exactly when the bytes are
/// valid UTF-8, and that string holds the characters the bytes encode.
#[verifier::external_body]
fn string_from_utf8(bytes: Vec<u8>) -> (res: Option<String>)
    ensures
        res is Some <==> valid_utf8(bytes@),
        res matches Some(s) ==> s@ == decode_utf8(bytes@),
{
    String::from_utf8(bytes).ok()
}

/// Turns UTF-8 bytes into a string, or reports `InvalidUtf8`.
pub fn utf8_to_string(bytes: Vec<u8>) -> (res: Result<String, MqttError>)
    ensures
        string_result(res) == utf8_spec(bytes@),
{
    match string_from_utf8(bytes) {
        Some(s) => Ok(s),
        None => Err(MqttError::InvalidUtf8),
    }
}

/// The UTF-8 bytes of a string.
pub fn string_bytes(s: &String) -> (res: &[u8])
    ensures
        res@ == encode_utf8(s@),
{
    s.as_str().as_bytes()
}

/// A copy of the UTF-8 bytes of a string.
pub fn string_to_bytes(s: &String) -> (res: Vec<u8>)
    ensures
        res@ == encode_utf8(s@),
{
    slice_to_vec(string_bytes(s))
}

/// The number of UTF-8 bytes of a string.
pub fn string_len(s: &String) -> (res: usize)
    ensures
        res == encode_utf8(s@).len(),
{
    string_bytes(s).len()
}

/// Takes `n` bytes from the front of `stream`; when fewer are left the stream is drained
/// and `UnexpectedEof` is reported.
pub fn take_bytes<'a>(stream: &mut &'a [u8], n: usize) -> (res: Result<&'a [u8], MqttError>)
    ensures
        ({
            let (r, rest) = read_bytes_spec(old(stream)@, n as int);
            &&& final(stream)@ == rest
            &&& match res {
                Ok(b) => r == Ok::<Seq<u8>, MqttError>(b@),
                Err(e) => r == Err::<Seq<u8>, MqttError>(e),
            }
        }),
{
    let s: &'a [u8] = *stream;
    if n > s.len() {
        let (_, rest) = s.split_at(s.len());
        *stream = rest;
        Err(MqttError::UnexpectedEof)
    } else {
        let (head, rest) = s.split_at(n);
        *stream = rest;
        Ok(head)
    }
}

/// Reading what is left of a stream: every byte, which leaves it empty.
pub open spec fn read_to_end_spec(s: Seq<u8>) -> (Result<Seq<u8>, MqttError>, Seq<u8>) {
    (Ok(s), Seq::empty())
}

/// Takes every byte left in a stream.
pub fn read_to_end(stream: &mut &[u8]) -> (res: Vec<u8>)
    ensures
        (Ok::<Seq<u8>, MqttError>(res@), final(stream)@) == read_to_end_spec(old(stream)@),
{
    let s: &[u8] = *stream;
    let (head, rest) = s.split_at(s.len());
    *stream = rest;
    assert(head@ =~= s@);
    slice_to_vec(head)
}

/// ## read_byte
///
/// Reads one byte from a stream.
pub fn read_byte(stream: &mut &[u8]) -> (res: Result<u8, MqttError>)
    ensures
        (res, final(stream)@) == read_byte_spec(old(stream)@),
{
    let b = take_bytes(stream, 1)?;
    Ok(b[0])
}

/// ## read_two_byte_integer
///
/// Reads a big-endian two-byte integer from a stream.
pub fn read_two_byte_integer(stream: &mut &[u8]) -> (res: Result<u16, MqttError>)
    ensures
        (res, final(stream)@) == read_u16_spec(old(stream)@),
{
    let b = take_bytes(stream, 2)?;
    Ok(b[0] as u16 * 256 + b[1] as u16)
}

/// ## read_four_byte_integer
///
/// Reads a big-endian four-byte integer from a stream.
pub fn read_four_byte_integer(stream: &mut &[u8]) -> (res: Result<u32, MqttError>)
    ensures
        (res, final(stream)@) == read_u32_spec(old(stream)@),
{
    let b = take_bytes(stream, 4)?;
    Ok(b[0] as u32 * 0x1000000 + b[1] as u32 * 0x10000 + b[2] as u32 * 256 + b[3] as u32)
}

/// ## read_utf8_encoded_string
///
/// Reads a UTF-8 string of `length` bytes from a stream.
pub fn read_utf8_encoded_string(stream: &mut &[u8], length: u16) -> (res: Result<String, MqttError>)
    ensures
        (string_result(res), final(stream)@) == read_string_spec(old(stream)@, length as int),
{
    let b = take_bytes(stream, length as usize)?;
    utf8_to_string(slice_to_vec(b))
}

/// Reads a two-byte length, then a UTF-8 string of that length.
pub fn read_text(stream: &mut &[u8]) -> (res: Result<String, MqttError>)
    ensures
        (string_result(res), final(stream)@) == read_text_spec(old(stream)@),
{
    let len = read_two_byte_integer(stream)?;
    read_utf8_encoded_string(stream, len)
}

/// Reads an optional string: none when no two-byte length is left, otherwise the UTF-8
/// string of that length.
pub fn read_opt_text(stream: &mut &[u8]) -> (res: Result<Option<String>, MqttError>)
    ensures
        ({
            let (r, rest) = read_opt_text_spec(old(stream)@);
            &&& final(stream)@ == rest
            &&& match res {
                Ok(m) => r == Ok::<Option<Seq<char>>, MqttError>(
                    crate::control_packets::mqtt_packet::packet_property::opt_string_view(m),
                ),
                Err(e) => r == Err::<Option<Seq<char>>, MqttError>(e),
            }
        }),
{
    let text = match read_two_byte_integer(stream) {
        Ok(len) => Some(read_utf8_encoded_string(stream, len)?),
        Err(_) => None,
    };
    Ok(text)
}

/// Reads a string whose length, when zero or missing, means there is none.
pub fn read_nonzero_text(stream: &mut &[u8]) -> (res: Option<String>)
    requires
        read_nonzero_text_safe(old(stream)@),
    ensures
        (crate::control_packets::mqtt_packet::packet_property::opt_string_view(res), final(stream)@)
            == read_nonzero_text_spec(old(stream)@),
{
    let len = match read_two_byte_integer(stream) {
        Ok(l) => l,
        Err(_) => 0,
    };
    if len > 0 {
        Some(read_utf8_encoded_string(stream, len).unwrap())
    } else {
        None
    }
}

/// The characters of each string of a list.
pub open spec fn string_values(strings: Seq<String>) -> Seq<Seq<char>> {
    strings.map_values(|s: String| s@)
}

/// The characters of text parts, one after the other.
pub open spec fn joined(parts: Seq<String>) -> Seq<char> {
    string_values(parts).flatten()
}

/// Calls `<[String]>::concat`. Trusted: the result holds the characters of the parts, one
/// after the other.
#[verifier::external_body]
pub(crate) fn concat_strings(parts: Vec<String>) -> (res: String)
    ensures
        res@ == joined(parts@),
{
    parts.concat()
}

/// Appends a text part.
pub(crate) fn push_part(parts: &mut Vec<String>, part: String)
    ensures
        joined(final(parts)@) == joined(old(parts)@) + part@,
{
    proof {
        assert(string_values(old(parts)@.push(part)) =~= string_values(old(parts)@).push(part@));
        string_values(old(parts)@).lemma_flatten_push(part@);
    }
    parts.push(part);
}

// ---------------------------------------------------------------------------
// Text values
// ---------------------------------------------------------------------------

/// The value of a flag written as text: `true` is 1, `false` is 0, anything else is not a
/// flag.
pub open spec fn bool_flag_value(s: Seq<char>) -> Option<u8> {
    if s == "true"@ {
        Some(1)
    } else if s == "false"@ {
        Some(0)
    } else {
        None
    }
}

/// Reads a flag written as `true` or `false`; anything else is `InvalidFlag`.
pub fn parse_bool_flag(flag: &String) -> (res: Result<u8, MqttError>)
    ensures
        res == (match bool_flag_value(flag@) {
            Some(b) => Ok::<u8, MqttError>(b),
            None => Err::<u8, MqttError>(MqttError::InvalidFlag),
        }),
{
    if *flag == "true".to_owned() {
        return Ok(1);
    }
    if *flag == "false".to_owned() {
        return Ok(0);
    }
    Err(MqttError::InvalidFlag)
}

/// Every byte is an ASCII decimal digit.
pub open spec fn all_digits(b: Seq<u8>) -> bool {
    forall|i: int| 0 <= i < b.len() ==> 48 <= #[trigger] b[i] <= 57
}

/// The value of a sequence of ASCII decimal digits.
pub open spec fn digits_value(b: Seq<u8>) -> nat
    decreases b.len(),
{
    if b.len() == 0 {
        0
    } else {
        digits_value(b.drop_last()) * 10 + (b.last() - 48) as nat
    }
}

/// What parsing text as a byte gives: an optional `+`, then at least one decimal digit,
/// whose value is at most 255.
pub open spec fn parse_u8_spec(b: Seq<u8>) -> Option<u8> {
    let d = if b.len() > 0 && b[0] == 43 {
        b.skip(1)
    } else {
        b
    };
    if d.len() > 0 && all_digits(d) && digits_value(d) <= 255 {
        Some(digits_value(d) as u8)
    } else {
        None
    }
}

proof fn lemma_digits_step(d: Seq<u8>, i: int)
    requires
        0 <= i < d.len(),
    ensures
        digits_value(d.take(i + 1)) == digits_value(d.take(i)) * 10 + (d[i] - 48) as nat,
{
    assert(d.take(i + 1).drop_last() =~= d.take(i));
}

proof fn lemma_digits_grow(d: Seq<u8>, i: int)
    requires
        0 <= i <= d.len(),
        all_digits(d),
    ensures
        digits_value(d.take(i)) <= digits_value(d),
    decreases d.len() - i,
{
    if i < d.len() {
        lemma_digits_step(d, i);
        assert(48 <= d[i] <= 57);
        lemma_digits_grow(d, i + 1);
    } else {
        assert(d.take(i) =~= d);
    }
}

/// Parses the text of a byte: an optional `+`, then decimal digits whose value is at most
/// 255; anything else is `InvalidNumber`.
pub fn parse_u8(text: &String) -> (res: Result<u8, MqttError>)
    ensures
        res == (match parse_u8_spec(encode_utf8(text@)) {
            Some(v) => Ok::<u8, MqttError>(v),
            None => Err::<u8, MqttError>(MqttError::InvalidNumber),
        }),
{
    let bytes = string_bytes(text);
    let ghost b = bytes@;
    let mut start: usize = 0;
    if bytes.len() > 0 && bytes[0] == 43 {
        start = 1;
    }
    let ghost d = if b.len() > 0 && b[0] == 43 {
        b.skip(1)
    } else {
        b
    };
    assert(d =~= b.skip(start as int));
    if start == bytes.len() {
        return Err(MqttError::InvalidNumber);
    }
    let mut value: u16 = 0;
    let mut i: usize = start;
    while i < bytes.len()
        invariant
            start <= i <= b.len(),
            bytes@ == b,
            b == encode_utf8(text@),
            d == (if b.len() > 0 && b[0] == 43 {
                b.skip(1)
            } else {
                b
            }),
            d == b.skip(start as int),
            d.len() > 0,
            value <= 255,
            value == digits_value(d.take(i - start)),
            all_digits(d.take(i - start)),
        decreases b.len() - i,
    {
        let c = bytes[i];
        let ghost k = i - start;
        assert(d[k as int] == c);
        if c < 48 || c > 57 {
            return Err(MqttError::InvalidNumber);
        }
        proof {
            lemma_digits_step(d, k as int);
            assert(d.take(k + 1) =~= d.take(k as int).push(c));
        }
        value = value * 10 + (c - 48) as u16;
        if value > 255 {
            proof {
                if all_digits(d) {
                    lemma_digits_grow(d, k + 1);
                }
            }
            return Err(MqttError::InvalidNumber);
        }
        i += 1;
    }
    assert(d.take(d.len() as int) =~= d);
    Ok(value as u8)
}

/// What parsing text as an unsigned integer of at most `max` gives: an optional `+`, then
/// at least one decimal digit, whose value is at most `max`.
pub open spec fn parse_decimal_spec(b: Seq<u8>, max: nat) -> Option<nat> {
    let d = if b.len() > 0 && b[0] == 43 {
        b.skip(1)
    } else {
        b
    };
    if d.len() > 0 && all_digits(d) && digits_value(d) <= max {
        Some(digits_value(d))
    } else {
        None
    }
}

/// Parses the text of an unsigned integer of at most `max`: an optional `+`, then decimal
/// digits whose value is at most `max`; anything else is `None`.
pub fn parse_decimal(text: &String, max: u64) -> (res: Option<u64>)
    ensures
        res == (match parse_decimal_spec(encode_utf8(text@), max as nat) {
            Some(v) => Some(v as u64),
            None => None,
        }),
{
    let bytes = string_bytes(text);
    let ghost b = bytes@;
    let mut start: usize = 0;
    if bytes.len() > 0 && bytes[0] == 43 {
        start = 1;
    }
    let ghost d = if b.len() > 0 && b[0] == 43 {
        b.skip(1)
    } else {
        b
    };
    assert(d =~= b.skip(start as int));
    if start == bytes.len() {
        return None;
    }
    let mut value: u64 = 0;
    let mut i: usize = start;
    while i < bytes.len()
        invariant
            start <= i <= b.len(),
            bytes@ == b,
            b == encode_utf8(text@),
            d == (if b.len() > 0 && b[0] == 43 {
                b.skip(1)
            } else {
                b
            }),
            d == b.skip(start as int),
            d.len() > 0,
            value <= max,
            value == digits_value(d.take(i - start)),
            all_digits(d.take(i - start)),
        decreases b.len() - i,
    {
        let c = bytes[i];
        let ghost k = i - start;
        assert(d[k as int] == c);
        if c < 48 || c > 57 {
            return None;
        }
        proof {
            lemma_digits_step(d, k as int);
            assert(d.take(k + 1) =~= d.take(k as int).push(c));
        }
        let next = match value.checked_mul(10) {
            Some(t) => t.checked_add((c - 48) as u64),
            None => None,
        };
        match next {
            Some(v) if v <= max => {
                value = v;
            },
            _ => {
                proof {
                    if all_digits(d) {
                        lemma_digits_grow(d, k + 1);
                    }
                }
                return None;
            },
        }
        i += 1;
    }
    assert(d.take(d.len() as int) =~= d);
    Some(value)
}

// ---------------------------------------------------------------------------
// Buffer readers: a buffer is read at a cursor that moves forward.
// ---------------------------------------------------------------------------

/// ## variable_byte_integer_from_be_bytes
///
/// Decodes a Variable Byte Integer from `buff` at the cursor and moves the cursor past it.
pub fn variable_byte_integer_from_be_bytes(buff: &[u8], buff_size: &mut usize) -> (value: u32)
    requires
        vbi_scan_safe(buff@, *old(buff_size) as int, 0, 1),
    ensures
        (value as int, *final(buff_size) as int) == vbi_scan(buff@, *old(buff_size) as int, 0, 1),
{
    let mut multiplier: u32 = 1;
    let mut value: u32 = 0;
    let ghost start = *buff_size as int;
    loop
        invariant_except_break
            0 < multiplier <= 268435456,
            vbi_scan_safe(buff@, *buff_size as int, value as int, multiplier as int),
            vbi_scan(buff@, start, 0, 1) == vbi_scan(
                buff@,
                *buff_size as int,
                value as int,
                multiplier as int,
            ),
        ensures
            (value as int, *buff_size as int) == vbi_scan(buff@, start, 0, 1),
        decreases 268435456 - multiplier,
    {
        let ghost pos = *buff_size as int;
        let ghost v0 = value as int;
        let byte = buff[*buff_size];
        *buff_size += 1;
        assert(byte & 0x7F == byte % 128) by (bit_vector);
        value += (byte & 0x7F) as u32 * multiplier;
        if multiplier > 128 * 128 * 128 {
            assert(vbi_scan(buff@, pos, v0, multiplier as int) == (value as int, pos + 1));
            break;
        }
        assert(byte & 0x80 == 0 <==> byte < 128) by (bit_vector);
        if byte & 0x80 == 0 {
            assert(vbi_scan(buff@, pos, v0, multiplier as int) == (value as int, pos + 1));
            break;
        }
        multiplier *= 128;
    }
    value
}

/// ## four_byte_integer_from_be_bytes
///
/// Reads a big-endian four-byte integer from `buff` at the cursor.
pub fn four_byte_integer_from_be_bytes(buff: &[u8], buff_size: &mut usize) -> (res: u32)
    requires
        *old(buff_size) + 4 <= buff@.len(),
    ensures
        *final(buff_size) == *old(buff_size) + 4,
        res == u32_of(
            buff@[*old(buff_size) as int],
            buff@[*old(buff_size) + 1],
            buff@[*old(buff_size) + 2],
            buff@[*old(buff_size) + 3],
        ),
{
    let n = buff.len();
    let i = *buff_size;
    *buff_size = i + 4;
    buff[i] as u32 * 0x1000000 + buff[i + 1] as u32 * 0x10000 + buff[i + 2] as u32 * 256
        + buff[i + 3] as u32
}

/// ## two_byte_integer_from_be_bytes
///
/// Reads a big-endian two-byte integer from `buff` at the cursor.
pub fn two_byte_integer_from_be_bytes(buff: &[u8], buff_size: &mut usize) -> (res: u16)
    requires
        *old(buff_size) + 2 <= buff@.len(),
    ensures
        *final(buff_size) == *old(buff_size) + 2,
        res == u16_of(buff@[*old(buff_size) as int], buff@[*old(buff_size) + 1]),
{
    let n = buff.len();
    let i = *buff_size;
    *buff_size = i + 2;
    buff[i] as u16 * 256 + buff[i + 1] as u16
}

/// ## byte_integer_from_be_bytes
///
/// Reads one byte from `buff` at the cursor.
pub fn byte_integer_from_be_bytes(buff: &[u8], buff_size: &mut usize) -> (res: u8)
    requires
        *old(buff_size) < buff@.len(),
    ensures
        *final(buff_size) == *old(buff_size) + 1,
        res == buff@[*old(buff_size) as int],
{
    let value = buff[*buff_size];
    *buff_size += 1;
    value
}

/// ## binary_data_from_be_bytes
///
/// Copies `length` bytes out of `buff` at the cursor.
pub fn binary_data_from_be_bytes(buff: &[u8], length: u16, buff_size: &mut usize) -> (res: Vec<u8>)
    requires
        *old(buff_size) + length <= buff@.len(),
    ensures
        *final(buff_size) == *old(buff_size) + length,
        res@ == buff@.subrange(*old(buff_size) as int, *old(buff_size) + length),
{
    let n = buff.len();
    let i = *buff_size;
    let end = i + length as usize;
    let local_buff = slice_to_vec(slice_subrange(buff, i, end));
    *buff_size = end;
    local_buff
}

/// ## utf8_string_from_be_bytes
///
/// Decodes `length` bytes of `buff` at the cursor as a UTF-8 string.
pub fn utf8_string_from_be_bytes(buff: &[u8], length: u16, buff_size: &mut usize) -> (res: Result<
    String,
    MqttError,
>)
    requires
        *old(buff_size) + length <= buff@.len(),
    ensures
        *final(buff_size) == *old(buff_size) + length,
        string_result(res) == utf8_spec(
            buff@.subrange(*old(buff_size) as int, *old(buff_size) + length),
        ),
{
    let local_buff = binary_data_from_be_bytes(buff, length, buff_size);
    utf8_to_string(local_buff)
}

// ---------------------------------------------------------------------------
// Variable Byte Integers
// ---------------------------------------------------------------------------

proof fn lemma_vbi_bytes_step(v: nat)
    requires
        v > 0,
    ensures
        vbi_bytes(v) == seq![(if v / 128 > 0 { v % 128 + 128 } else { v % 128 }) as u8]
            + vbi_tail(v / 128),
{
    if v < 128 {
        assert(vbi_bytes(v) =~= seq![(v % 128) as u8] + Seq::<u8>::empty());
    }
}

/// ## variable_byte_integer_encode
///
/// Appends the Variable Byte Integer encoding of `value` to `bytes`.
pub fn variable_byte_integer_encode(bytes: &mut Vec<u8>, value: u32)
    ensures
        final(bytes)@ == old(bytes)@ + vbi_bytes(value as nat),
{
    if value == 0 {
        bytes.push(0);
        assert(vbi_bytes(0) =~= seq![0u8]);
        return ;
    }
    let mut value = value;
    let ghost target = old(bytes)@ + vbi_bytes(value as nat);
    while value > 0
        invariant
            bytes@ + vbi_tail(value as nat) == target,
        decreases value,
    {
        proof {
            lemma_vbi_bytes_step(value as nat);
        }
        let ghost before = bytes@;
        let mut byte = (value % 128) as u8;
        value /= 128;
        if value > 0 {
            assert(byte < 128 ==> byte | 0x80 == byte + 128) by (bit_vector);
            byte |= 0x80;
        }
        bytes.push(byte);
        assert(bytes@ + vbi_tail(value as nat) =~= before + (seq![byte] + vbi_tail(value as nat)));
    }
    assert(bytes@ + vbi_tail(0) =~= bytes@);
}

/// ## variable_byte_integer_length
///
/// The number of bytes in the Variable Byte Integer encoding of `value`.
pub fn variable_byte_integer_length(value: u32) -> (len: u32)
    ensures
        len == vbi_bytes(value as nat).len(),
{
    if value == 0 {
        return 1;
    }
    let ghost orig = value;
    let mut value = value;
    let mut len: u32 = 0;
    proof {
        lemma_value_bits_bound(value as nat);
    }
    while value > 0
        invariant
            len + vbi_tail(value as nat).len() == vbi_bytes(orig as nat).len(),
            len + value_bits(value as nat) <= 5,
        decreases value,
    {
        proof {
            lemma_vbi_bytes_step(value as nat);
            lemma_value_bits_div(value as nat);
        }
        value /= 128;
        len += 1;
    }
    len
}

/// A crude bound on the number of base-128 digits, used to rule out overflow.
spec fn value_bits(v: nat) -> nat
    decreases v,
{
    if v == 0 {
        0
    } else {
        1 + value_bits(v / 128)
    }
}

proof fn lemma_value_bits_div(v: nat)
    requires
        v > 0,
    ensures
        value_bits(v) == 1 + value_bits(v / 128),
{
}

proof fn lemma_value_bits_bound(v: nat)
    requires
        v <= u32::MAX,
    ensures
        value_bits(v) <= 5,
{
    assert(v / 128 / 128 / 128 / 128 / 128 == 0);
    reveal_with_fuel(value_bits, 6);
}

/// ## variable_byte_integer_decode
///
/// Reads a Variable Byte Integer from a stream; a fifth byte is a Malformed Variable Byte
/// Integer, and a stream that ends early is `UnexpectedEof`.
pub fn variable_byte_integer_decode(stream: &mut &[u8]) -> (res: Result<u32, MqttError>)
    ensures
        ({
            let (r, n) = vbi_read(old(stream)@, 0, 0, 1);
            &&& res == r
            &&& final(stream)@ == old(stream)@.skip(n)
        }),
{
    let ghost s0 = stream@;
    let mut multiplier: u32 = 1;
    let mut value: u32 = 0;
    let ghost mut pos: int = 0;
    loop
        invariant_except_break
            0 < multiplier <= 268435456,
            value < multiplier,
            0 <= pos <= s0.len(),
            s0 == old(stream)@,
            stream@ == s0.skip(pos),
            vbi_read(s0, 0, 0, 1) == vbi_read(s0, pos, value as int, multiplier as int),
        ensures
            vbi_read(s0, 0, 0, 1) == (Ok::<u32, MqttError>(value), pos),
            stream@ == s0.skip(pos),
        decreases 268435456 - multiplier,
    {
        let ghost p0 = pos;
        let ghost v0 = value as int;
        let byte = match read_byte(stream) {
            Ok(b) => b,
            Err(e) => {
                assert(s0.skip(s0.len() as int) =~= Seq::<u8>::empty());
                assert(vbi_read(s0, p0, v0, multiplier as int) == (
                    Err::<u32, MqttError>(MqttError::UnexpectedEof),
                    s0.len() as int,
                ));
                assert(e == MqttError::UnexpectedEof);
                assert(vbi_read(s0, 0, 0, 1).0 == Err::<u32, MqttError>(e));
                assert(stream@ == s0.skip(vbi_read(s0, 0, 0, 1).1));
                return Err(e);
            },
        };
        assert(stream@ =~= s0.skip(pos + 1));
        proof {
            pos = pos + 1;
        }
        assert(byte == s0[p0]);
        if multiplier > 128 * 128 * 128 {
            assert(vbi_read(s0, p0, v0, multiplier as int) == (
                Err::<u32, MqttError>(MqttError::MalformedVariableByteInteger),
                pos,
            ));
            assert(vbi_read(s0, 0, 0, 1).1 == pos);
            return Err(MqttError::MalformedVariableByteInteger);
        }
        assert(byte & 0x7F == byte % 128) by (bit_vector);
        assert((byte % 128) as int * multiplier <= 127 * multiplier) by (nonlinear_arith)
            requires
                byte % 128 <= 127,
                multiplier > 0,
        ;
        value += (byte & 0x7F) as u32 * multiplier;
        assert(byte & 0x80 == 0 <==> byte < 128) by (bit_vector);
        if byte & 0x80 == 0 {
            assert(vbi_read(s0, p0, v0, multiplier as int) == (Ok::<u32, MqttError>(value), pos));
            break;
        }
        multiplier *= 128;
    }
    Ok(value)
}

} // verus!
