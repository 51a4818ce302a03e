//! Gateway shared keys, client initialisation decisions, network-monitor wiring,
//! request-logging classification and TUN packet handling, with their contracts.

pub mod init;
pub mod logging;
pub mod network_monitor;
pub mod primitives;
pub mod shared_key;
pub mod storage;
pub mod tun_device;
