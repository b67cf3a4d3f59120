pub mod subscribe;
pub mod subscribe_properties;
