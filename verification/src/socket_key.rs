//! Canonical, direction-symmetric socket keys.
//!
//! Both the user-space socket builder and the in-kernel packet-path program
//! must resolve the same flow to bit-identical keys, or fault injection is
//! silently skipped for that flow. Symmetry is obtained by storing the two
//! endpoints of a connection in a canonical order, independent of which
//! side is local and of the direction a packet travels.

use vstd::prelude::*;

verus! {

/// Traffic direction of a packet as seen by the packet-path program.
#[derive(Clone, Copy, PartialEq, Eq, Structural, Debug)]
pub enum Direction {
    /// The packet leaves through the egress hook.
    Egress,
    /// The packet arrives through the ingress hook.
    Ingress,
}

/// Canonical identifier of one TCP flow: the normalized 4-tuple.
///
/// The endpoint that orders first (address, then port) is stored in the
/// `lo` fields, so the key derived from either end of the connection, and
/// from packets in either direction, is the same value.
#[derive(Clone, Copy, PartialEq, Eq, Structural, Debug, Hash)]
pub struct SocketKey {
    /// Address of the endpoint that orders first.
    pub addr_lo: u32,
    /// Port of the endpoint that orders first.
    pub port_lo: u16,
    /// Address of the endpoint that orders second.
    pub addr_hi: u32,
    /// Port of the endpoint that orders second.
    pub port_hi: u16,
}

/// Lexicographic order on endpoints: address first, then port.
pub open spec fn endpoint_le(a_addr: u32, a_port: u16, b_addr: u32, b_port: u16) -> bool {
    a_addr < b_addr || (a_addr == b_addr && a_port <= b_port)
}

/// The canonical key of the flow between endpoints A and B.
pub open spec fn spec_key(a_addr: u32, a_port: u16, b_addr: u32, b_port: u16) -> SocketKey {
    if endpoint_le(a_addr, a_port, b_addr, b_port) {
        SocketKey { addr_lo: a_addr, port_lo: a_port, addr_hi: b_addr, port_hi: b_port }
    } else {
        SocketKey { addr_lo: b_addr, port_lo: b_port, addr_hi: a_addr, port_hi: a_port }
    }
}

impl SocketKey {
    /// The stored endpoints are in canonical order.
    pub open spec fn wf(self) -> bool {
        endpoint_le(self.addr_lo, self.port_lo, self.addr_hi, self.port_hi)
    }
}

/// Derives the key from the user-space socket's view: its own bound
/// endpoint and the peer it connects to. Pure; never fails.
pub fn from_socket_view(
    local_addr: u32,
    local_port: u16,
    remote_addr: u32,
    remote_port: u16,
) -> (k: SocketKey)
    ensures
        k == spec_key(local_addr, local_port, remote_addr, remote_port),
        k.wf(),
{
    if local_addr < remote_addr || (local_addr == remote_addr && local_port <= remote_port) {
        SocketKey {
            addr_lo: local_addr,
            port_lo: local_port,
            addr_hi: remote_addr,
            port_hi: remote_port,
        }
    } else {
        SocketKey {
            addr_lo: remote_addr,
            port_lo: remote_port,
            addr_hi: local_addr,
            port_hi: local_port,
        }
    }
}

/// Derives the key from the packet-path program's view: a packet's source
/// and destination endpoints. Canonical ordering makes the result
/// independent of the direction the packet travels, so the parameter only
/// documents the vantage point.
pub fn from_packet_view(
    src_addr: u32,
    src_port: u16,
    dst_addr: u32,
    dst_port: u16,
    direction: Direction,
) -> (k: SocketKey)
    ensures
        k == spec_key(src_addr, src_port, dst_addr, dst_port),
        k.wf(),
{
    let _ = direction;
    from_socket_view(src_addr, src_port, dst_addr, dst_port)
}

/// Law: the key is symmetric in its two endpoints, so the key computed
/// from either end's socket view, and from packets travelling in either
/// direction between the two ends, is the same value.
pub proof fn lemma_key_symmetry(a_addr: u32, a_port: u16, b_addr: u32, b_port: u16)
    ensures
        spec_key(a_addr, a_port, b_addr, b_port) == spec_key(b_addr, b_port, a_addr, a_port),
{
}

} // verus!
