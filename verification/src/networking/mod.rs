pub mod mqtt;
pub mod net_iface;
