//! Error taxonomy of the control plane.
//!
//! Setup-time failures (configuration, program load, attach, namespace
//! resolution) are fatal to startup; per-connection failures are isolated
//! at the lifecycle boundary and never stop the generator.

use vstd::prelude::*;

verus! {

/// The flow configuration could not be obtained.
#[derive(Clone, Copy, PartialEq, Eq, Structural, Debug)]
pub enum ConfigError {
    /// The configuration source could not be read.
    Unreadable,
    /// The configuration bytes do not form a valid record.
    Malformed,
}

/// A kernel program artifact could not be loaded.
#[derive(Clone, Copy, PartialEq, Eq, Structural, Debug)]
pub enum LoadError {
    /// The artifact bundle was malformed or incompatible.
    ArtifactRejected,
}

/// A loaded kernel program could not be attached.
#[derive(Clone, Copy, PartialEq, Eq, Structural, Debug)]
pub enum AttachError {
    /// Attaching the packet-path program to an interface failed.
    PacketPathFailed,
    /// Attaching the socket-hook program to the control group failed,
    /// for instance because the wrong attach mode was used.
    SocketHookFailed,
}

/// A network namespace could not be used.
#[derive(Clone, Copy, PartialEq, Eq, Structural, Debug)]
pub enum NamespaceError {
    /// No namespace of the requested name exists.
    NotFound,
}

/// A single connection lifecycle failed; always recovered at the caller.
#[derive(Clone, Copy, PartialEq, Eq, Structural, Debug)]
pub enum ClientSocketError {
    /// Writing the flow configuration into the shared map failed
    /// (for example, the map is full).
    ConfigWriteFailed,
    /// The underlying connect failed (refused, timed out).
    ConnectFailed,
    /// Entering the client namespace failed.
    NamespaceError,
}

} // verus!
