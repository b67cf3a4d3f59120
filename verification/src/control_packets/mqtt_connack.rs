pub mod connack;
pub mod connack_properties;
pub mod connect_reason_code;
pub mod fixed_header;
pub mod variable_header;
