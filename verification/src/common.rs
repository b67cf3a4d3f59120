pub mod authentication;
pub mod data_types;
pub mod flags;
pub mod topic_filter;
pub mod utils;
