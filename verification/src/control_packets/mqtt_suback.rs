pub mod suback;
pub mod suback_properties;
