pub mod disconnect;
pub mod disconnect_properties;
pub mod variable_header;
