pub mod payload;
pub mod publish;
pub mod publish_properties;
pub mod variable_header;
