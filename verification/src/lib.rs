//! Control plane of a network-fault-injection load generator.
//!
//! The library holds the verified core: the flow-configuration record and
//! its fixed-size wire codec, the direction-symmetric socket-key codec, the
//! model of the kernel-shared flow-configuration map, the interception
//! control-plane state machine with its kernel-version-dependent attach-mode
//! selection, the connection-lifecycle step machine, and the rate-controlled
//! generator bookkeeping. Kernel program loading, namespace switching and
//! the actual TCP traffic are driven by an unverified front end that feeds
//! plain values into, and takes decisions out of, these types.

pub mod builder;
pub mod config_map;
pub mod control_plane;
pub mod errors;
pub mod flow_config;
pub mod generator;
pub mod socket_key;
