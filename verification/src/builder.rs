//! Conditioned socket builder and the connection lifecycle.
//!
//! A lifecycle is: register the flow's configuration pair in the shared
//! map, open the connection from inside the client namespace, optionally
//! exchange a randomized amount of data, and shut the connection down.
//! The registration must complete before the connect, or the handshake's
//! first packets would see no configuration. The builder performs the
//! registration on the verified map model; the step machine decides, from
//! the lifecycle's state and the outcome of each step, what the unverified
//! front end (which performs the actual socket work) does next.

use vstd::prelude::*;

use crate::config_map::{FlowConfigMap, FlowPair};
use crate::errors::ClientSocketError;
use crate::flow_config::FlowConfig;
use crate::socket_key::{spec_key, from_socket_view, SocketKey};

verus! {

/// Fewest packets one data exchange sends.
pub const MIN_PACKETS: usize = 50;

/// One above the most packets one data exchange sends.
pub const MAX_PACKETS: usize = 150;

/// Smallest packet payload, in bytes.
pub const MIN_PACKET_LEN: usize = 200;

/// One above the largest packet payload, in bytes.
pub const MAX_PACKET_LEN: usize = 2048;

/// Fixed pacing delay between packets, in milliseconds.
pub const PACING_MILLIS: u64 = 10;

/// Relies on `rand::random_range`: a uniformly distributed value within
/// the given range; it panics only on an empty range, which the
/// precondition excludes.
#[verifier::external_body]
fn random_in_range(lo: usize, hi: usize) -> (r: usize)
    requires
        lo < hi,
    ensures
        lo <= r < hi,
{
    rand::random_range(lo..hi)
}

/// Draws the randomized data-exchange plan of one lifecycle: one entry
/// per packet to send, holding that packet's payload size. The front end
/// writes the packets in order, pacing them [`PACING_MILLIS`] apart.
pub fn build_exchange_plan() -> (r: Vec<usize>)
    ensures
        MIN_PACKETS <= r@.len() < MAX_PACKETS,
        forall|i: int| 0 <= i < r@.len() ==> MIN_PACKET_LEN <= #[trigger] r@[i] < MAX_PACKET_LEN,
{
    let packets = random_in_range(MIN_PACKETS, MAX_PACKETS);
    let mut plan: Vec<usize> = Vec::new();
    let mut i: usize = 0;
    while i < packets
        invariant
            i <= packets,
            MIN_PACKETS <= packets < MAX_PACKETS,
            plan@.len() == i,
            forall|t: int|
                0 <= t < plan@.len() ==> MIN_PACKET_LEN <= #[trigger] plan@[t] < MAX_PACKET_LEN,
        decreases packets - i,
    {
        plan.push(random_in_range(MIN_PACKET_LEN, MAX_PACKET_LEN));
        i += 1;
    }
    plan
}

/// Builds conditioned sockets: registers a flow's configuration in the
/// shared map before its connection is opened.
pub struct ClientSocketBuilder {
    map: FlowConfigMap,
}

impl ClientSocketBuilder {
    /// The flow-configuration map the builder writes.
    pub closed spec fn spec_map(&self) -> FlowConfigMap {
        self.map
    }

    /// The owned map is valid.
    pub open spec fn wf(&self) -> bool {
        self.spec_map().wf()
    }

    /// Takes ownership of the shared map, as handed out by an attached
    /// control plane.
    pub fn new(map: FlowConfigMap) -> (r: ClientSocketBuilder)
        requires
            map.wf(),
        ensures
            r.wf(),
            r.spec_map() == map,
    {
        ClientSocketBuilder { map }
    }

    /// Registers the two directional configurations of the prospective
    /// connection under its canonical key, derived from the socket's
    /// local and remote endpoints once the local endpoint is known.
    ///
    /// Succeeds exactly when the map accepts the write (key present, or
    /// map not full); a full map fails with `ConfigWriteFailed` and the
    /// map is unchanged. Writes under distinct keys never disturb each
    /// other (see [`crate::config_map::lemma_map_isolation`]).
    pub fn register_flow(
        &mut self,
        local_addr: u32,
        local_port: u16,
        remote_addr: u32,
        remote_port: u16,
        outbound: FlowConfig,
        inbound: FlowConfig,
    ) -> (r: Result<SocketKey, ClientSocketError>)
        requires
            old(self).wf(),
        ensures
            final(self).wf(),
            final(self).spec_map().spec_capacity() == old(self).spec_map().spec_capacity(),
            r is Ok <==> (old(self).spec_map()@.contains_key(
                spec_key(local_addr, local_port, remote_addr, remote_port),
            ) || old(self).spec_map()@.dom().len() < old(self).spec_map().spec_capacity()),
            r matches Ok(key) ==> {
                &&& key == spec_key(local_addr, local_port, remote_addr, remote_port)
                &&& key.wf()
                &&& final(self).spec_map()@ == old(self).spec_map()@.insert(
                    key,
                    FlowPair { outbound, inbound },
                )
            },
            r matches Err(e) ==> e == ClientSocketError::ConfigWriteFailed && *final(self) == *old(
                self,
            ),
    {
        let key = from_socket_view(local_addr, local_port, remote_addr, remote_port);
        match self.map.insert(key, FlowPair { outbound, inbound }) {
            Ok(()) => Ok(key),
            Err(e) => Err(e),
        }
    }

    /// Looks a registered flow up, as the interception programs do.
    pub fn lookup(&self, key: &SocketKey) -> (r: Option<FlowPair>)
        requires
            self.wf(),
        ensures
            self.spec_map()@.contains_key(*key) ==> r == Some(self.spec_map()@[*key]),
            !self.spec_map()@.contains_key(*key) ==> r is None,
    {
        self.map.get(key)
    }
}

/// The next step of a connection lifecycle, performed by the front end.
#[derive(Clone, Copy, PartialEq, Eq, Structural, Debug)]
pub enum LifecycleAction {
    /// Write the flow's configuration pair into the shared map.
    RegisterConfig,
    /// Open the TCP connection from inside the client namespace.
    OpenConnection,
    /// Send the planned packets and read the responses.
    ExchangeData,
    /// Shut the connection down gracefully.
    Shutdown,
    /// Nothing is left to do: the lifecycle is complete or abandoned.
    Finish,
}

/// State of one connection lifecycle.
///
/// The step machine issues actions in the fixed order register (when
/// fault injection is enabled), connect, exchange (when data is enabled),
/// shutdown; any failed step abandons the lifecycle. Failures never
/// propagate: the generator and other lifecycles are unaffected.
#[derive(Clone, Copy, PartialEq, Eq, Structural, Debug)]
pub struct Lifecycle {
    /// Whether this flow is conditioned through the shared map.
    pub shaping: bool,
    /// Whether data is exchanged after the connect.
    pub send_data: bool,
    /// The flow's configuration is registered in the map.
    pub registered: bool,
    /// The connection is open.
    pub connected: bool,
    /// The data exchange is done.
    pub data_done: bool,
    /// The connection was shut down gracefully.
    pub shut_down: bool,
    /// A step failed; the lifecycle is abandoned.
    pub failed: bool,
}

impl Lifecycle {
    /// Steps happened in order; in particular a conditioned flow was
    /// registered before it was connected.
    pub open spec fn wf(self) -> bool {
        &&& (self.connected && self.shaping ==> self.registered)
        &&& (self.data_done ==> self.connected)
        &&& (self.shut_down ==> self.connected)
    }

    /// All work of this lifecycle is done.
    pub open spec fn spec_complete(self) -> bool {
        self.connected && (self.data_done || !self.send_data) && self.shut_down
    }

    /// The action the machine issues in this state.
    pub open spec fn spec_next_action(self) -> LifecycleAction {
        if self.failed || self.spec_complete() {
            LifecycleAction::Finish
        } else if self.shaping && !self.registered {
            LifecycleAction::RegisterConfig
        } else if !self.connected {
            LifecycleAction::OpenConnection
        } else if self.send_data && !self.data_done {
            LifecycleAction::ExchangeData
        } else {
            LifecycleAction::Shutdown
        }
    }

    /// The state after performing `action` with outcome `ok`.
    pub open spec fn spec_apply(self, action: LifecycleAction, ok: bool) -> Lifecycle {
        if action == LifecycleAction::Finish {
            self
        } else if !ok {
            Lifecycle { failed: true, ..self }
        } else {
            match action {
                LifecycleAction::RegisterConfig => Lifecycle { registered: true, ..self },
                LifecycleAction::OpenConnection => Lifecycle { connected: true, ..self },
                LifecycleAction::ExchangeData => Lifecycle { data_done: true, ..self },
                LifecycleAction::Shutdown => Lifecycle { shut_down: true, ..self },
                LifecycleAction::Finish => self,
            }
        }
    }

    /// Starts a lifecycle with nothing done yet.
    pub fn new(shaping: bool, send_data: bool) -> (r: Lifecycle)
        ensures
            r.wf(),
            r == (Lifecycle {
                shaping,
                send_data,
                registered: false,
                connected: false,
                data_done: false,
                shut_down: false,
                failed: false,
            }),
    {
        Lifecycle {
            shaping,
            send_data,
            registered: false,
            connected: false,
            data_done: false,
            shut_down: false,
            failed: false,
        }
    }

    /// Decides the next step. A conditioned flow is never asked to
    /// connect before its configuration is registered.
    pub fn next_action(&self) -> (r: LifecycleAction)
        ensures
            r == self.spec_next_action(),
            r == LifecycleAction::OpenConnection && self.shaping ==> self.registered,
    {
        if self.failed || (self.connected && (self.data_done || !self.send_data)
            && self.shut_down) {
            LifecycleAction::Finish
        } else if self.shaping && !self.registered {
            LifecycleAction::RegisterConfig
        } else if !self.connected {
            LifecycleAction::OpenConnection
        } else if self.send_data && !self.data_done {
            LifecycleAction::ExchangeData
        } else {
            LifecycleAction::Shutdown
        }
    }

    /// Records the outcome of the step the machine itself issued: the
    /// step is marked done on success, and the lifecycle is abandoned on
    /// failure — it never retries and never affects any other lifecycle.
    pub fn apply(&mut self, action: LifecycleAction, ok: bool)
        requires
            old(self).wf(),
            action == old(self).spec_next_action(),
        ensures
            final(self).wf(),
            *final(self) == old(self).spec_apply(action, ok),
    {
        if action == LifecycleAction::Finish {
        } else if !ok {
            self.failed = true;
        } else {
            match action {
                LifecycleAction::RegisterConfig => {
                    self.registered = true;
                },
                LifecycleAction::OpenConnection => {
                    self.connected = true;
                },
                LifecycleAction::ExchangeData => {
                    self.data_done = true;
                },
                LifecycleAction::Shutdown => {
                    self.shut_down = true;
                },
                LifecycleAction::Finish => {},
            }
        }
    }
}

/// Law (registration before connect): in the fault-injection path the
/// lifecycle machine only issues the connect step once the flow's map
/// write is done, and every step it takes keeps that order intact.
pub proof fn lemma_registration_before_connect(lc: Lifecycle, ok: bool)
    requires
        lc.wf(),
        lc.shaping,
    ensures
        lc.spec_next_action() == LifecycleAction::OpenConnection ==> lc.registered,
        lc.spec_apply(lc.spec_next_action(), ok).wf(),
{
}

} // verus!
