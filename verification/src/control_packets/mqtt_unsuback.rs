pub mod unsuback;
pub mod unsuback_properties;
