#![verifier::loop_isolation(false)]
//! A reservation-only DHCPv4 / DHCPv6 server core.
//!
//! The library holds the verified heart of the server: the multi-key
//! reservation index, the lease cache, the extractor pipeline, the
//! reservation resolver and the two protocol handlers.  Messages are
//! represented as plain values (integers, byte vectors, strings), so every
//! rule the handlers enforce is stated in a contract and proved.  Sockets,
//! wire codecs, configuration files and logging live outside the library.

pub mod config;
pub mod duid;
pub mod extractors;
pub mod extractors_v6;
pub mod index;
pub mod laws;
pub mod leasedb;
pub mod mac_extractors;
pub mod mac;
pub mod mgmt;
pub mod net;
pub mod resolve;
pub mod strutil;
pub mod types;
pub mod v4;
pub mod worker;
pub mod v6;
