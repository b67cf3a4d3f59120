pub mod connect;
pub mod connect_payload;
pub mod connect_properties;
pub mod fixed_header;
pub mod payload;
pub mod variable_header;
pub mod variable_header_properties;
