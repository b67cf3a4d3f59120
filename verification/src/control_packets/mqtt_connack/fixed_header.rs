use vstd::prelude::*;

verus! {

/// The fixed header of a CONNACK packet: the type-and-flags byte and the remaining length.
pub struct ConnackFixedHeader {
    pub packet_type_and_flags: u8,
    pub remaining_length: u8,
}

impl ConnackFixedHeader {
    pub fn new(packet_type_and_flags: u8, remaining_length: u8) -> (res: ConnackFixedHeader)
        ensures
            res.packet_type_and_flags == packet_type_and_flags,
            res.remaining_length == remaining_length,
    {
        ConnackFixedHeader { packet_type_and_flags, remaining_length }
    }
}

} // verus!
