pub mod pingreq;
