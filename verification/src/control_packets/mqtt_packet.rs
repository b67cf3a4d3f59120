pub mod fixed_header;
pub mod flags;
pub mod packet;
pub mod packet_properties;
pub mod packet_property;
pub mod property_list;
pub mod property_model;
pub mod reason_codes;
pub mod variable_header_properties;
pub mod variable_header_property;
