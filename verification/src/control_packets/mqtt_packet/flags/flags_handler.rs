use vstd::prelude::*;

use crate::common::data_types::{parse_u8, MqttError};
use crate::common::data_types;

verus! {

/// The `len` bits of `flags` from bit `shifts` on.
pub open spec fn flag_bits(flags: u8, shifts: u8, len: u8) -> u8 {
    (flags >> shifts) & (if len == 1 {
        1u8
    } else {
        3u8
    })
}

/// Takes the `len` bits of `flags` from bit `shifts` on.
fn apply_mask_to_n_bits(flags: u8, shifts: u8, len: u8) -> (res: u8)
    requires
        shifts < 8,
        len == 1 || len == 2,
    ensures
        res == flag_bits(flags, shifts, len),
{
    assert((1u8 << 1u8) - 1u8 == 1u8 && (1u8 << 2u8) - 1u8 == 3u8) by (bit_vector);
    let mask: u8 = (1 << len) - 1;
    (flags >> shifts) & mask
}

/// CONNECT FLAG: RESERVED
pub fn get_connect_flag_reserved(flags: u8) -> (res: u8)
    ensures
        res == flag_bits(flags, 0, 1),
{
    apply_mask_to_n_bits(flags, 0, 1)
}

/// CONNECT FLAG: CLEAN START
pub fn get_connect_flag_clean_start(flags: u8) -> (res: u8)
    ensures
        res == flag_bits(flags, 1, 1),
{
    apply_mask_to_n_bits(flags, 1, 1)
}

/// CONNECT FLAG: WILL FLAG
pub fn get_connect_flag_will_flag(flags: u8) -> (res: u8)
    ensures
        res == flag_bits(flags, 2, 1),
{
    apply_mask_to_n_bits(flags, 2, 1)
}

/// CONNECT FLAG: WILL QoS
pub fn get_connect_flag_will_qos(flags: u8) -> (res: u8)
    ensures
        res == flag_bits(flags, 3, 2),
{
    apply_mask_to_n_bits(flags, 3, 2)
}

/// CONNECT FLAG: WILL RETAIN
pub fn get_connect_flag_will_retain(flags: u8) -> (res: u8)
    ensures
        res == flag_bits(flags, 5, 1),
{
    apply_mask_to_n_bits(flags, 5, 1)
}

/// CONNECT FLAG: PASSWORD
pub fn get_connect_flag_password(flags: u8) -> (res: u8)
    ensures
        res == flag_bits(flags, 6, 1),
{
    apply_mask_to_n_bits(flags, 6, 1)
}

/// CONNECT FLAG: USERNAME
pub fn get_connect_flag_username(flags: u8) -> (res: u8)
    ensures
        res == flag_bits(flags, 7, 1),
{
    apply_mask_to_n_bits(flags, 7, 1)
}

/// CONNACK FLAG: SESSION PRESENT
pub fn get_connect_acknowledge_flag_session_present(flags: u8) -> (res: u8)
    ensures
        res == flag_bits(flags, 0, 1),
{
    apply_mask_to_n_bits(flags, 0, 1)
}

/// PUBLISH FLAG: DUP
pub fn get_publish_dup_flag(flags: u8) -> (res: u8)
    ensures
        res == flag_bits(flags, 3, 1),
{
    apply_mask_to_n_bits(flags, 3, 1)
}

/// PUBLISH FLAG: QoS
pub fn get_publish_qos_level(flags: u8) -> (res: u8)
    ensures
        res == flag_bits(flags, 1, 2),
{
    apply_mask_to_n_bits(flags, 1, 2)
}

/// PUBLISH FLAG: RETAIN
pub fn get_publish_retain(flags: u8) -> (res: u8)
    ensures
        res == flag_bits(flags, 0, 1),
{
    apply_mask_to_n_bits(flags, 0, 1)
}

/// SUBSCRIBE FLAG: MAX QoS
pub fn get_subscribe_max_qos(subscription_options: u8) -> (res: u8)
    ensures
        res == flag_bits(subscription_options, 0, 2),
{
    apply_mask_to_n_bits(subscription_options, 0, 2)
}

/// SUBSCRIBE FLAG: NO LOCAL OPTION
pub fn get_subscribe_no_local_option(subscription_options: u8) -> (res: u8)
    ensures
        res == flag_bits(subscription_options, 2, 1),
{
    apply_mask_to_n_bits(subscription_options, 2, 1)
}

/// SUBSCRIBE FLAG: RETAIN AS PUBLISHED
pub fn get_subscribe_retain_as_published(subscription_options: u8) -> (res: u8)
    ensures
        res == flag_bits(subscription_options, 3, 1),
{
    apply_mask_to_n_bits(subscription_options, 3, 1)
}

/// SUBSCRIBE FLAG: RETAIN HANDLING
pub fn get_subscribe_retain_handling(subscription_options: u8) -> (res: u8)
    ensures
        res == flag_bits(subscription_options, 4, 2),
{
    apply_mask_to_n_bits(subscription_options, 4, 2)
}

/// Reads a flag written as `true` (1) or `false` (0); anything else is `InvalidFlag`.
pub fn catch_true_false(flag: &String) -> (res: Result<u8, MqttError>)
    ensures
        res == (match data_types::bool_flag_value(flag@) {
            Some(b) => Ok::<u8, MqttError>(b),
            None => Err::<u8, MqttError>(MqttError::InvalidFlag),
        }),
{
    if *flag == "true".to_owned() {
        return Ok(1);
    }
    if *flag == "false".to_owned() {
        return Ok(0);
    }
    Err(MqttError::InvalidFlag)
}

/// Sets the flag in bit 1 of the connect flags from its text, `true` or `false`;
/// anything else is `InvalidFlag`.
pub fn add_connect_flag_clean_start(connect_flags: u8, clean_start: String) -> (res: Result<u8, MqttError>)
    ensures
        res == (match data_types::bool_flag_value(clean_start@) {
            Some(b) => Ok::<u8, MqttError>(connect_flags | (b << 1u8)),
            None => Err::<u8, MqttError>(MqttError::InvalidFlag),
        }),
{
    let mut connect_flags = connect_flags;
    let clean_start = match catch_true_false(&clean_start) {
        Ok(p) => p,
        Err(e) => return Err(e),
    };
    connect_flags |= clean_start << 1;
    Ok(connect_flags)
}

/// Sets the flag in bit 2 of the connect flags from its text, `true` or `false`;
/// anything else is `InvalidFlag`.
pub fn add_connect_flag_will_flag(connect_flags: u8, will_flag: String) -> (res: Result<u8, MqttError>)
    ensures
        res == (match data_types::bool_flag_value(will_flag@) {
            Some(b) => Ok::<u8, MqttError>(connect_flags | (b << 2u8)),
            None => Err::<u8, MqttError>(MqttError::InvalidFlag),
        }),
{
    let mut connect_flags = connect_flags;
    let will_flag = match catch_true_false(&will_flag) {
        Ok(p) => p,
        Err(e) => return Err(e),
    };
    connect_flags |= will_flag << 2;
    Ok(connect_flags)
}

/// Sets the flag in bit 5 of the connect flags from its text, `true` or `false`;
/// anything else is `InvalidFlag`.
pub fn add_connect_flag_will_retain(connect_flags: u8, will_retain: String) -> (res: Result<u8, MqttError>)
    ensures
        res == (match data_types::bool_flag_value(will_retain@) {
            Some(b) => Ok::<u8, MqttError>(connect_flags | (b << 5u8)),
            None => Err::<u8, MqttError>(MqttError::InvalidFlag),
        }),
{
    let mut connect_flags = connect_flags;
    let will_retain = match catch_true_false(&will_retain) {
        Ok(p) => p,
        Err(e) => return Err(e),
    };
    connect_flags |= will_retain << 5;
    Ok(connect_flags)
}

/// Sets the flag in bit 6 of the connect flags from its text, `true` or `false`;
/// anything else is `InvalidFlag`.
pub fn add_connect_flag_password(connect_flags: u8, password: String) -> (res: Result<u8, MqttError>)
    ensures
        res == (match data_types::bool_flag_value(password@) {
            Some(b) => Ok::<u8, MqttError>(connect_flags | (b << 6u8)),
            None => Err::<u8, MqttError>(MqttError::InvalidFlag),
        }),
{
    let mut connect_flags = connect_flags;
    let password = match catch_true_false(&password) {
        Ok(p) => p,
        Err(e) => return Err(e),
    };
    connect_flags |= password << 6;
    Ok(connect_flags)
}

/// Sets the flag in bit 7 of the connect flags from its text, `true` or `false`;
/// anything else is `InvalidFlag`.
pub fn add_connect_flag_username(connect_flags: u8, username: String) -> (res: Result<u8, MqttError>)
    ensures
        res == (match data_types::bool_flag_value(username@) {
            Some(b) => Ok::<u8, MqttError>(connect_flags | (b << 7u8)),
            None => Err::<u8, MqttError>(MqttError::InvalidFlag),
        }),
{
    let mut connect_flags = connect_flags;
    let username = match catch_true_false(&username) {
        Ok(p) => p,
        Err(e) => return Err(e),
    };
    connect_flags |= username << 7;
    Ok(connect_flags)
}

/// Sets the Will QoS in bits 3 and 4 of the connect flags from its text, a decimal byte
/// (bits shifted past the byte are dropped); other text is `InvalidNumber`.
pub fn add_connect_flag_will_qos(connect_flags: u8, will_qos: String) -> (res: Result<u8, MqttError>)
    ensures
        res == (match data_types::parse_u8_spec(vstd::utf8::encode_utf8(will_qos@)) {
            Some(q) => Ok::<u8, MqttError>(connect_flags | (q << 3u8)),
            None => Err::<u8, MqttError>(MqttError::InvalidNumber),
        }),
{
    let mut connect_flags = connect_flags;
    let will_qos = match parse_u8(&will_qos) {
        Ok(p) => p,
        Err(e) => return Err(e),
    };
    connect_flags |= will_qos << 3;
    Ok(connect_flags)
}

/// Setting a one-bit connect flag on flags where it is clear makes it read back as set
/// or clear, and leaves the other bits as they were.
pub proof fn lemma_connect_flag_set(connect_flags: u8, bit: u8, b: u8)
    requires
        1 <= bit < 8,
        b <= 1,
        flag_bits(connect_flags, bit, 1) == 0,
    ensures
        flag_bits(connect_flags | (b << bit), bit, 1) == b,
        forall|k: u8| k < 8 && k != bit ==> flag_bits(connect_flags | (b << bit), k, 1) == #[trigger] flag_bits(connect_flags, k, 1),
{
    assert(((connect_flags >> bit) & 1u8) == 0 && b <= 1 && 1 <= bit < 8 ==> (((connect_flags | (b << bit)) >> bit) & 1u8) == b) by (bit_vector);
    assert forall|k: u8| k < 8 && k != bit implies flag_bits(connect_flags | (b << bit), k, 1) == #[trigger] flag_bits(connect_flags, k, 1) by {
        assert(b <= 1 && 1 <= bit < 8 && k < 8 && k != bit ==> (((connect_flags | (b << bit)) >> k) & 1u8) == ((connect_flags >> k) & 1u8)) by (bit_vector);
    }
}

/// Setting a Will QoS of at most 2 on flags whose Will QoS bits are clear makes it read back,
/// and leaves the other bits as they were.
pub proof fn lemma_will_qos_set(connect_flags: u8, q: u8)
    requires
        q <= 2,
        flag_bits(connect_flags, 3, 2) == 0,
    ensures
        flag_bits(connect_flags | (q << 3u8), 3, 2) == q,
        flag_bits(connect_flags | (q << 3u8), 0, 1) == flag_bits(connect_flags, 0, 1),
        flag_bits(connect_flags | (q << 3u8), 1, 1) == flag_bits(connect_flags, 1, 1),
        flag_bits(connect_flags | (q << 3u8), 2, 1) == flag_bits(connect_flags, 2, 1),
        flag_bits(connect_flags | (q << 3u8), 5, 1) == flag_bits(connect_flags, 5, 1),
        flag_bits(connect_flags | (q << 3u8), 6, 1) == flag_bits(connect_flags, 6, 1),
        flag_bits(connect_flags | (q << 3u8), 7, 1) == flag_bits(connect_flags, 7, 1),
{
    assert(((connect_flags >> 3u8) & 3u8) == 0 && q <= 2 ==> (((connect_flags | (q << 3u8)) >> 3u8) & 3u8) == q) by (bit_vector);
    assert(q <= 2 ==> {
        &&& (((connect_flags | (q << 3u8)) >> 0u8) & 1u8) == ((connect_flags >> 0u8) & 1u8)
        &&& (((connect_flags | (q << 3u8)) >> 1u8) & 1u8) == ((connect_flags >> 1u8) & 1u8)
        &&& (((connect_flags | (q << 3u8)) >> 2u8) & 1u8) == ((connect_flags >> 2u8) & 1u8)
        &&& (((connect_flags | (q << 3u8)) >> 5u8) & 1u8) == ((connect_flags >> 5u8) & 1u8)
        &&& (((connect_flags | (q << 3u8)) >> 6u8) & 1u8) == ((connect_flags >> 6u8) & 1u8)
        &&& (((connect_flags | (q << 3u8)) >> 7u8) & 1u8) == ((connect_flags >> 7u8) & 1u8)
    }) by (bit_vector);
}

/// The flags of a PUBLISH header read back the DUP flag, the QoS level and the RETAIN flag
/// they were built from.
pub proof fn lemma_publish_flags(dup_flag: u8, qos_level: u8, retain: u8)
    requires
        dup_flag <= 1,
        qos_level <= 3,
        retain <= 1,
    ensures
        flag_bits(0x30u8 | ((dup_flag << 3u8) | (qos_level << 1u8) | retain), 3, 1) == dup_flag,
        flag_bits(0x30u8 | ((dup_flag << 3u8) | (qos_level << 1u8) | retain), 1, 2) == qos_level,
        flag_bits(0x30u8 | ((dup_flag << 3u8) | (qos_level << 1u8) | retain), 0, 1) == retain,
{
    assert(dup_flag <= 1 && qos_level <= 3 && retain <= 1 ==> {
        &&& (((0x30u8 | ((dup_flag << 3u8) | (qos_level << 1u8) | retain)) >> 3u8) & 1u8) == dup_flag
        &&& (((0x30u8 | ((dup_flag << 3u8) | (qos_level << 1u8) | retain)) >> 1u8) & 3u8) == qos_level
        &&& (((0x30u8 | ((dup_flag << 3u8) | (qos_level << 1u8) | retain)) >> 0u8) & 1u8) == retain
    }) by (bit_vector);
}

} // verus!
