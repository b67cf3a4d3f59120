pub mod mqtt_auth;
pub mod mqtt_connack;
pub mod mqtt_connect;
pub mod mqtt_disconnect;
pub mod mqtt_packet;
pub mod mqtt_pingreq;
pub mod mqtt_pingresp;
pub mod mqtt_puback;
pub mod mqtt_publish;
pub mod mqtt_suback;
pub mod mqtt_subscribe;
pub mod mqtt_unsuback;
pub mod mqtt_unsubscribe;
