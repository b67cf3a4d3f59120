pub mod server_config;
