pub mod puback;
pub mod puback_properties;
pub mod variable_header;
