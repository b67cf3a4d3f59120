pub mod auth;
pub mod auth_properties;
