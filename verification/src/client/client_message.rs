use vstd::prelude::*;

verus! {

/// A message received by the client: the topic it came on and its data.
pub struct MqttClientMessage {
    pub topic: String,
    pub data: Vec<u8>,
}

} // verus!
