//! Server side: the connection-event tally, its per-tick drain operation,
//! and the configuration value the bootstrap step listens with.

use vstd::prelude::*;

use crate::shared::ClientId;
use crate::shared::IpV4;
use crate::shared::local_bind_ip;
use crate::shared::local_bind_ip_spec;

verus! {

/// Event delivered by the transport when a client has connected.
#[derive(Clone, Copy, Debug, PartialEq, Eq, Structural)]
pub struct ServerConnectionEvent {
    /// Identifier the transport assigned to the client who connected.
    pub id: ClientId,
}

/// Server-side tally: a count of connection events and the identifier of
/// the most recently connected client. Created empty at startup and
/// mutated once per tick by draining newly delivered events.
#[derive(Clone, Debug)]
pub struct ServerData {
    /// How many connection events have been drained so far.
    pub connection_events_received: u64,
    /// Identifier carried by the most recently drained connection event,
    /// or `None` while no client has connected yet.
    pub last_connected_client_id: Option<ClientId>,
}

/// The tally after draining `events` into `d`: the counter grows by
/// exactly the number of drained events, and the last-connected field is
/// overwritten unconditionally by each event in arrival order, so it ends
/// at the identifier of the final event.
pub open spec fn server_after_drain(d: ServerData, events: Seq<ServerConnectionEvent>) -> ServerData {
    ServerData {
        connection_events_received: (d.connection_events_received + events.len()) as u64,
        last_connected_client_id: if events.len() > 0 {
            Some(events.last().id)
        } else {
            d.last_connected_client_id
        },
    }
}

impl Default for ServerData {
    /// The empty tally: zero events seen, no client connected yet.
    fn default() -> (d: ServerData)
        ensures
            d.connection_events_received == 0,
            d.last_connected_client_id is None,
    {
        ServerData { connection_events_received: 0, last_connected_client_id: None }
    }
}

impl ServerData {
    /// Drain one tick's worth of connection events, in arrival order:
    /// each event increments the counter by one and overwrites the
    /// last-connected-client identifier.
    pub fn handle_server_events(&mut self, events: &Vec<ServerConnectionEvent>)
        requires
            old(self).connection_events_received + events@.len() <= u64::MAX,
        ensures
            *final(self) == server_after_drain(*old(self), events@),
    {
        let mut i: usize = 0;
        while i < events.len()
            invariant
                i <= events@.len(),
                old(self).connection_events_received + events@.len() <= u64::MAX,
                self.connection_events_received == old(self).connection_events_received + i,
                self.last_connected_client_id == (if i > 0 {
                    Some(events@[i - 1].id)
                } else {
                    old(self).last_connected_client_id
                }),
            decreases events@.len() - i,
        {
            self.connection_events_received = self.connection_events_received + 1;
            self.last_connected_client_id = Some(events[i].id);
            i = i + 1;
        }
    }
}

/// The counter counts exactly: draining `events` grows it by the number
/// of events, no fewer and no more, whatever the prior tally held.
pub proof fn lemma_server_drain_counts_exactly(d: ServerData, events: Seq<ServerConnectionEvent>)
    requires
        d.connection_events_received + events.len() <= u64::MAX,
    ensures
        server_after_drain(d, events).connection_events_received
            == d.connection_events_received + events.len(),
{
}

/// After a drain that delivered at least one connection event, the
/// last-connected-client identifier is the identifier of the most
/// recently connected client, regardless of what the tally held before —
/// in particular, regardless of how many prior clients had connected.
pub proof fn lemma_last_connected_is_most_recent(
    d1: ServerData,
    d2: ServerData,
    events: Seq<ServerConnectionEvent>,
)
    requires
        events.len() > 0,
    ensures
        server_after_drain(d1, events).last_connected_client_id == Some(events.last().id),
        server_after_drain(d1, events).last_connected_client_id
            == server_after_drain(d2, events).last_connected_client_id,
{
}

/// Everything one begin-listening request carries: where to bind, and the
/// hostname the self-signed certificate is generated for.
#[derive(Clone, Debug)]
pub struct ServerEndpointConfig {
    /// Local address to bind the endpoint on.
    pub bind_addr: IpV4,
    /// Port to listen on.
    pub bind_port: u16,
    /// A self-signed certificate is generated for this hostname at
    /// startup; no certificate is persisted or rotated.
    pub server_hostname: String,
}

/// The one listening request the server bootstrap issues: bind all
/// interfaces at the configured port, generating a self-signed
/// certificate for the fixed hostname 127.0.0.1.
pub fn server_endpoint_config(port: u16) -> (c: ServerEndpointConfig)
    ensures
        c.bind_addr == local_bind_ip_spec(),
        c.bind_port == port,
        c.server_hostname@ == "127.0.0.1"@,
{
    ServerEndpointConfig {
        bind_addr: local_bind_ip(),
        bind_port: port,
        server_hostname: String::from_str("127.0.0.1"),
    }
}

/// One server application wires a listening endpoint and a tally into the
/// host framework's startup/update lifecycle for a configured port.
pub struct ServerPlugin {
    port: u16,
}

impl ServerPlugin {
    /// The port this plugin will listen on.
    pub closed spec fn spec_port(&self) -> u16 {
        self.port
    }

    pub fn new(port: u16) -> (p: ServerPlugin)
        ensures
            p.spec_port() == port,
    {
        ServerPlugin { port }
    }

    /// The configured port, as handed to `new`.
    pub fn port(&self) -> (r: u16)
        ensures
            r == self.spec_port(),
    {
        self.port
    }
}

} // verus!
