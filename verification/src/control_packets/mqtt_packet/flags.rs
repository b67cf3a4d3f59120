pub mod flags_handler;
