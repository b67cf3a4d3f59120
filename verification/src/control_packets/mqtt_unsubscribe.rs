pub mod unsubscribe;
pub mod unsubscribe_properties;
