pub mod data_types;
