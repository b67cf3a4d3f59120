pub mod pingresp;
