pub mod client_config;
pub mod mqtt_config;
pub mod server_config;
