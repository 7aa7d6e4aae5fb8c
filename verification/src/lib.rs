//! Verified core of the Network ToolKit: address and packet parsing,
//! packet construction, port bookkeeping and the decisions behind the
//! diagnostic subcommands.
pub mod text;
pub mod checksum;
pub mod ipv4;
pub mod ports;
pub mod trace;
pub mod packets;
pub mod frames;
pub mod mac;
pub mod arp_cache;
pub mod interfaces;
pub mod http;
pub mod error;
pub mod scan;
pub mod gateway;
pub mod banner;
pub mod discover;
pub mod listing;
pub mod analyze;
pub mod cli;
pub mod json;
pub mod route;
