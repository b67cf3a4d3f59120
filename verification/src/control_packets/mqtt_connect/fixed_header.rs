use vstd::prelude::*;

verus! {

/// The fixed header of a CONNECT packet: the packet type and flags, and the remaining
/// length.
pub struct ConnectFixedHeader {
    packet_type_and_flags: u8,
    remaining_length: usize,
}

} // verus!
