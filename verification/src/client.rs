//! Client side: the certificate and connection event types, the
//! certificate-interaction decision policy, the client tally with its
//! per-tick drain operation, and the configuration value the bootstrap
//! step connects with.

use vstd::prelude::*;

use crate::shared::IpV4;
use crate::shared::local_bind_ip;
use crate::shared::local_bind_ip_spec;
use crate::shared::server_ip;
use crate::shared::server_ip_spec;

verus! {

/// Identifier the transport assigns to one connection of the client.
pub type ConnectionId = u64;

/// Event delivered by the transport when the client has connected.
#[derive(Clone, Copy, Debug, PartialEq, Eq, Structural)]
pub struct ClientConnectionEvent {
    /// Identifier of the connection that was established.
    pub id: ConnectionId,
}

/// Status of the server certificate's verification, as reported by the
/// transport. A closed set: every status a verification can end in.
#[derive(Clone, Copy, Debug, PartialEq, Eq, Structural)]
pub enum CertVerificationStatus {
    /// First time connecting to this host.
    UnknownCertificate,
    /// The certificate does not match the fingerprint known for the host.
    UntrustedCertificate,
    /// The certificate matches the fingerprint known for the host.
    TrustedCertificate,
}

/// What the transport reports about a server certificate: the server's
/// name and the certificate fingerprints involved. A fingerprint is a
/// digest the transport computes over the certificate, carried here in
/// its textual form; this library never interprets it.
#[derive(Debug)]
pub struct CertVerificationInfo {
    /// Name of the server the certificate was presented for.
    pub server_name: String,
    /// Fingerprint of the certificate that was received.
    pub fingerprint: String,
    /// The previously known fingerprint for this server, if any.
    pub known_fingerprint: Option<String>,
}

impl Clone for CertVerificationInfo {
    fn clone(&self) -> (r: Self)
        ensures
            r == *self,
    {
        CertVerificationInfo {
            server_name: self.server_name.clone(),
            fingerprint: self.fingerprint.clone(),
            known_fingerprint: match &self.known_fingerprint {
                Some(f) => Some(f.clone()),
                None => None,
            },
        }
    }
}

/// Event delivered when a new certificate has become trusted.
#[derive(Clone, Debug)]
pub struct CertTrustUpdateEvent {
    pub cert_info: CertVerificationInfo,
}

/// Event delivered when the certificate verification needs a decision
/// from the application.
#[derive(Clone, Debug)]
pub struct CertInteractionEvent {
    /// The status the verification ended in.
    pub status: CertVerificationStatus,
    /// Server and certificate details.
    pub info: CertVerificationInfo,
}

/// Event delivered when a connection was aborted during certificate
/// verification.
#[derive(Clone, Debug)]
pub struct CertConnectionAbortEvent {
    pub status: CertVerificationStatus,
    pub cert_info: CertVerificationInfo,
}

/// The action the application chooses in answer to a certificate
/// interaction. This client only ever aborts.
#[derive(Clone, Copy, Debug, PartialEq, Eq, Structural)]
pub enum CertVerifierAction {
    /// Abort the connection; the transport will raise an abort event.
    AbortConnection,
}

/// Decision policy for one certificate interaction: an untrusted
/// certificate aborts the connection. The unknown and trusted statuses
/// are an open policy decision, deliberately left outside this function's
/// domain; the caller must not reach it with them.
pub fn cert_interaction_action(status: CertVerificationStatus) -> (a: CertVerifierAction)
    requires
        status == CertVerificationStatus::UntrustedCertificate,
    ensures
        a == CertVerifierAction::AbortConnection,
{
    CertVerifierAction::AbortConnection
}

/// Client-side tally: counters and most-recent snapshots for the four
/// event categories the transport delivers. Created empty at startup and
/// mutated once per tick by draining newly delivered events.
#[derive(Clone, Debug)]
pub struct ClientData {
    /// How many connection-established events have been drained so far.
    pub connection_events_received: u64,

    /// How many certificate-trust-update events have been drained.
    pub cert_trust_update_events_received: u64,
    /// Certificate details of the most recent trust update, if any.
    pub last_trusted_cert_info: Option<CertVerificationInfo>,

    /// How many certificate-interaction events have been drained.
    pub cert_interactions_received: u64,
    /// Status carried by the most recent interaction, if any.
    pub last_cert_interactions_status: Option<CertVerificationStatus>,
    /// Certificate details of the most recent interaction, if any.
    pub last_cert_interactions_info: Option<CertVerificationInfo>,

    /// How many connection-abort events have been drained.
    pub cert_verif_connection_abort_events_received: u64,
    /// Status carried by the most recent abort, if any.
    pub last_abort_cert_status: Option<CertVerificationStatus>,
    /// Certificate details of the most recent abort, if any.
    pub last_abort_cert_info: Option<CertVerificationInfo>,
}

impl Default for ClientData {
    /// The empty tally: all counters zero, no snapshot taken yet.
    fn default() -> (d: ClientData)
        ensures
            d == ClientData::empty(),
    {
        ClientData {
            connection_events_received: 0,
            cert_trust_update_events_received: 0,
            last_trusted_cert_info: None,
            cert_interactions_received: 0,
            last_cert_interactions_status: None,
            last_cert_interactions_info: None,
            cert_verif_connection_abort_events_received: 0,
            last_abort_cert_status: None,
            last_abort_cert_info: None,
        }
    }
}

/// The client tally after draining one tick's worth of events of the four
/// categories: each counter grows by exactly the number of events drained
/// in its category, and each snapshot field is overwritten by every event
/// of its category in arrival order, so it ends at the last event's data.
pub open spec fn client_after_drain(
    d: ClientData,
    connections: Seq<ClientConnectionEvent>,
    trust_updates: Seq<CertTrustUpdateEvent>,
    interactions: Seq<CertInteractionEvent>,
    aborts: Seq<CertConnectionAbortEvent>,
) -> ClientData {
    ClientData {
        connection_events_received: (d.connection_events_received + connections.len()) as u64,
        cert_trust_update_events_received: (d.cert_trust_update_events_received
            + trust_updates.len()) as u64,
        last_trusted_cert_info: if trust_updates.len() > 0 {
            Some(trust_updates.last().cert_info)
        } else {
            d.last_trusted_cert_info
        },
        cert_interactions_received: (d.cert_interactions_received + interactions.len()) as u64,
        last_cert_interactions_status: if interactions.len() > 0 {
            Some(interactions.last().status)
        } else {
            d.last_cert_interactions_status
        },
        last_cert_interactions_info: if interactions.len() > 0 {
            Some(interactions.last().info)
        } else {
            d.last_cert_interactions_info
        },
        cert_verif_connection_abort_events_received: (d.cert_verif_connection_abort_events_received
            + aborts.len()) as u64,
        last_abort_cert_status: if aborts.len() > 0 {
            Some(aborts.last().status)
        } else {
            d.last_abort_cert_status
        },
        last_abort_cert_info: if aborts.len() > 0 {
            Some(aborts.last().cert_info)
        } else {
            d.last_abort_cert_info
        },
    }
}

impl ClientData {
    /// The empty tally.
    pub open spec fn empty() -> ClientData {
        ClientData {
            connection_events_received: 0,
            cert_trust_update_events_received: 0,
            last_trusted_cert_info: None,
            cert_interactions_received: 0,
            last_cert_interactions_status: None,
            last_cert_interactions_info: None,
            cert_verif_connection_abort_events_received: 0,
            last_abort_cert_status: None,
            last_abort_cert_info: None,
        }
    }

    /// Drain one tick's worth of events, each category in arrival order:
    /// every event increments its category's counter by one and
    /// overwrites the category's snapshot fields. Every certificate
    /// interaction is answered by the decision policy; the returned
    /// actions, one per interaction event in order, are for the caller to
    /// apply to the transport. Interaction events must carry the
    /// untrusted status: the policy for the other statuses is an open
    /// decision (see `cert_interaction_action`).
    pub fn handle_client_events(
        &mut self,
        connection_events: &Vec<ClientConnectionEvent>,
        cert_trust_update_events: &Vec<CertTrustUpdateEvent>,
        cert_interaction_events: &Vec<CertInteractionEvent>,
        cert_connection_abort_events: &Vec<CertConnectionAbortEvent>,
    ) -> (actions: Vec<CertVerifierAction>)
        requires
            old(self).connection_events_received + connection_events@.len() <= u64::MAX,
            old(self).cert_trust_update_events_received + cert_trust_update_events@.len()
                <= u64::MAX,
            old(self).cert_interactions_received + cert_interaction_events@.len() <= u64::MAX,
            old(self).cert_verif_connection_abort_events_received
                + cert_connection_abort_events@.len() <= u64::MAX,
            forall|j: int|
                0 <= j < cert_interaction_events@.len() ==> cert_interaction_events@[j].status
                    == CertVerificationStatus::UntrustedCertificate,
        ensures
            *final(self) == client_after_drain(
                *old(self),
                connection_events@,
                cert_trust_update_events@,
                cert_interaction_events@,
                cert_connection_abort_events@,
            ),
            actions@.len() == cert_interaction_events@.len(),
            forall|j: int|
                0 <= j < actions@.len() ==> actions@[j] == CertVerifierAction::AbortConnection,
    {
        let ghost orig = *self;
        let mut i: usize = 0;
        while i < connection_events.len()
            invariant
                i <= connection_events@.len(),
                orig.connection_events_received + connection_events@.len() <= u64::MAX,
                self.connection_events_received == orig.connection_events_received + i,
                *self == (ClientData { connection_events_received: self.connection_events_received, ..orig }),
            decreases connection_events@.len() - i,
        {
            self.connection_events_received = self.connection_events_received + 1;
            i = i + 1;
        }

        let mut i: usize = 0;
        while i < cert_trust_update_events.len()
            invariant
                i <= cert_trust_update_events@.len(),
                orig.cert_trust_update_events_received + cert_trust_update_events@.len()
                    <= u64::MAX,
                self.cert_trust_update_events_received == orig.cert_trust_update_events_received
                    + i,
                self.last_trusted_cert_info == (if i > 0 {
                    Some(cert_trust_update_events@[i - 1].cert_info)
                } else {
                    orig.last_trusted_cert_info
                }),
                *self == (ClientData {
                    cert_trust_update_events_received: self.cert_trust_update_events_received,
                    last_trusted_cert_info: self.last_trusted_cert_info,
                    connection_events_received: self.connection_events_received,
                    ..orig
                }),
                self.connection_events_received == orig.connection_events_received
                    + connection_events@.len(),
            decreases cert_trust_update_events@.len() - i,
        {
            self.cert_trust_update_events_received = self.cert_trust_update_events_received + 1;
            self.last_trusted_cert_info = Some(cert_trust_update_events[i].cert_info.clone());
            i = i + 1;
        }

        let mut actions: Vec<CertVerifierAction> = Vec::new();
        let mut i: usize = 0;
        while i < cert_interaction_events.len()
            invariant
                i <= cert_interaction_events@.len(),
                orig.cert_interactions_received + cert_interaction_events@.len() <= u64::MAX,
                forall|j: int|
                    0 <= j < cert_interaction_events@.len() ==> cert_interaction_events@[j].status
                        == CertVerificationStatus::UntrustedCertificate,
                self.cert_interactions_received == orig.cert_interactions_received + i,
                self.last_cert_interactions_status == (if i > 0 {
                    Some(cert_interaction_events@[i - 1].status)
                } else {
                    orig.last_cert_interactions_status
                }),
                self.last_cert_interactions_info == (if i > 0 {
                    Some(cert_interaction_events@[i - 1].info)
                } else {
                    orig.last_cert_interactions_info
                }),
                *self == (ClientData {
                    cert_interactions_received: self.cert_interactions_received,
                    last_cert_interactions_status: self.last_cert_interactions_status,
                    last_cert_interactions_info: self.last_cert_interactions_info,
                    connection_events_received: self.connection_events_received,
                    cert_trust_update_events_received: self.cert_trust_update_events_received,
                    last_trusted_cert_info: self.last_trusted_cert_info,
                    ..orig
                }),
                self.connection_events_received == orig.connection_events_received
                    + connection_events@.len(),
                self.cert_trust_update_events_received == orig.cert_trust_update_events_received
                    + cert_trust_update_events@.len(),
                self.last_trusted_cert_info == (if cert_trust_update_events@.len() > 0 {
                    Some(cert_trust_update_events@.last().cert_info)
                } else {
                    orig.last_trusted_cert_info
                }),
                actions@.len() == i,
                forall|j: int|
                    0 <= j < actions@.len() ==> actions@[j]
                        == CertVerifierAction::AbortConnection,
            decreases cert_interaction_events@.len() - i,
        {
            self.cert_interactions_received = self.cert_interactions_received + 1;
            self.last_cert_interactions_status = Some(cert_interaction_events[i].status);
            self.last_cert_interactions_info = Some(cert_interaction_events[i].info.clone());
            let action = cert_interaction_action(cert_interaction_events[i].status);
            actions.push(action);
            i = i + 1;
        }

        let mut i: usize = 0;
        while i < cert_connection_abort_events.len()
            invariant
                i <= cert_connection_abort_events@.len(),
                orig.cert_verif_connection_abort_events_received
                    + cert_connection_abort_events@.len() <= u64::MAX,
                self.cert_verif_connection_abort_events_received
                    == orig.cert_verif_connection_abort_events_received + i,
                self.last_abort_cert_status == (if i > 0 {
                    Some(cert_connection_abort_events@[i - 1].status)
                } else {
                    orig.last_abort_cert_status
                }),
                self.last_abort_cert_info == (if i > 0 {
                    Some(cert_connection_abort_events@[i - 1].cert_info)
                } else {
                    orig.last_abort_cert_info
                }),
                *self == (ClientData {
                    cert_verif_connection_abort_events_received:
                        self.cert_verif_connection_abort_events_received,
                    last_abort_cert_status: self.last_abort_cert_status,
                    last_abort_cert_info: self.last_abort_cert_info,
                    connection_events_received: self.connection_events_received,
                    cert_trust_update_events_received: self.cert_trust_update_events_received,
                    last_trusted_cert_info: self.last_trusted_cert_info,
                    cert_interactions_received: self.cert_interactions_received,
                    last_cert_interactions_status: self.last_cert_interactions_status,
                    last_cert_interactions_info: self.last_cert_interactions_info,
                    ..orig
                }),
                self.connection_events_received == orig.connection_events_received
                    + connection_events@.len(),
                self.cert_trust_update_events_received == orig.cert_trust_update_events_received
                    + cert_trust_update_events@.len(),
                self.last_trusted_cert_info == (if cert_trust_update_events@.len() > 0 {
                    Some(cert_trust_update_events@.last().cert_info)
                } else {
                    orig.last_trusted_cert_info
                }),
                self.cert_interactions_received == orig.cert_interactions_received
                    + cert_interaction_events@.len(),
                self.last_cert_interactions_status == (if cert_interaction_events@.len() > 0 {
                    Some(cert_interaction_events@.last().status)
                } else {
                    orig.last_cert_interactions_status
                }),
                self.last_cert_interactions_info == (if cert_interaction_events@.len() > 0 {
                    Some(cert_interaction_events@.last().info)
                } else {
                    orig.last_cert_interactions_info
                }),
                actions@.len() == cert_interaction_events@.len(),
                forall|j: int|
                    0 <= j < actions@.len() ==> actions@[j]
                        == CertVerifierAction::AbortConnection,
            decreases cert_connection_abort_events@.len() - i,
        {
            self.cert_verif_connection_abort_events_received =
                self.cert_verif_connection_abort_events_received + 1;
            self.last_abort_cert_status = Some(cert_connection_abort_events[i].status);
            self.last_abort_cert_info = Some(cert_connection_abort_events[i].cert_info.clone());
            i = i + 1;
        }

        actions
    }
}

/// Every counter counts exactly: draining a tick's events grows each
/// category's counter by the number of events of that category, no fewer
/// and no more, whatever the prior tally held.
pub proof fn lemma_client_drain_counts_exactly(
    d: ClientData,
    connections: Seq<ClientConnectionEvent>,
    trust_updates: Seq<CertTrustUpdateEvent>,
    interactions: Seq<CertInteractionEvent>,
    aborts: Seq<CertConnectionAbortEvent>,
)
    requires
        d.connection_events_received + connections.len() <= u64::MAX,
        d.cert_trust_update_events_received + trust_updates.len() <= u64::MAX,
        d.cert_interactions_received + interactions.len() <= u64::MAX,
        d.cert_verif_connection_abort_events_received + aborts.len() <= u64::MAX,
    ensures
        ({
            let after = client_after_drain(d, connections, trust_updates, interactions, aborts);
            &&& after.connection_events_received == d.connection_events_received
                + connections.len()
            &&& after.cert_trust_update_events_received == d.cert_trust_update_events_received
                + trust_updates.len()
            &&& after.cert_interactions_received == d.cert_interactions_received
                + interactions.len()
            &&& after.cert_verif_connection_abort_events_received
                == d.cert_verif_connection_abort_events_received + aborts.len()
        }),
{
}

/// An untrusted-certificate interaction, once drained, leaves its status
/// as the last interaction seen, and the abort event the transport then
/// raises increments the abort counter by exactly one on the tick that
/// drains it. (That the drain answers the interaction by aborting the
/// connection is stated by `handle_client_events`: its actions are one
/// `AbortConnection` per interaction event.)
pub proof fn lemma_untrusted_interaction_aborts(
    d: ClientData,
    interaction: CertInteractionEvent,
    abort: CertConnectionAbortEvent,
)
    requires
        interaction.status == CertVerificationStatus::UntrustedCertificate,
        d.cert_interactions_received < u64::MAX,
        d.cert_verif_connection_abort_events_received < u64::MAX,
    ensures
        ({
            let after_interaction = client_after_drain(
                d,
                Seq::<ClientConnectionEvent>::empty(),
                Seq::<CertTrustUpdateEvent>::empty(),
                seq![interaction],
                Seq::<CertConnectionAbortEvent>::empty(),
            );
            let after_abort = client_after_drain(
                after_interaction,
                Seq::<ClientConnectionEvent>::empty(),
                Seq::<CertTrustUpdateEvent>::empty(),
                Seq::<CertInteractionEvent>::empty(),
                seq![abort],
            );
            &&& after_interaction.last_cert_interactions_status == Some(
                CertVerificationStatus::UntrustedCertificate,
            )
            &&& after_abort.cert_verif_connection_abort_events_received
                == d.cert_verif_connection_abort_events_received + 1
            &&& after_abort.last_abort_cert_status == Some(abort.status)
        }),
{
}

/// How the client checks the server certificate when connecting.
#[derive(Clone, Copy, Debug, PartialEq, Eq, Structural)]
pub enum CertVerificationMode {
    /// Accept any certificate without validation.
    SkipVerification,
}

/// Everything one outbound-connection request carries: where to connect,
/// where to bind locally, and the certificate-verification policy.
#[derive(Clone, Debug, PartialEq, Eq, Structural)]
pub struct ClientConnectionConfig {
    /// Address of the server to connect to.
    pub server_addr: IpV4,
    /// Port of the server to connect to.
    pub server_port: u16,
    /// Local address to bind the outbound socket on.
    pub local_bind_addr: IpV4,
    /// Local port to bind on; zero asks for an ephemeral port.
    pub local_bind_port: u16,
    /// How the server certificate is checked.
    pub verification: CertVerificationMode,
}

/// The one connection request the client bootstrap issues: connect to
/// loopback at the configured port, from an ephemeral local port on all
/// interfaces, accepting any certificate without validation.
pub fn client_connection_config(port: u16) -> (c: ClientConnectionConfig)
    ensures
        c.server_addr == server_ip_spec(),
        c.server_port == port,
        c.local_bind_addr == local_bind_ip_spec(),
        c.local_bind_port == 0,
        c.verification == CertVerificationMode::SkipVerification,
{
    ClientConnectionConfig {
        server_addr: server_ip(),
        server_port: port,
        local_bind_addr: local_bind_ip(),
        local_bind_port: 0,
        verification: CertVerificationMode::SkipVerification,
    }
}

/// One client application wires an outbound connection and a tally into
/// the host framework's startup/update lifecycle for a configured port.
pub struct ClientPlugin {
    port: u16,
}

impl ClientPlugin {
    /// The port this plugin will connect to.
    pub closed spec fn spec_port(&self) -> u16 {
        self.port
    }

    pub fn new(port: u16) -> (p: ClientPlugin)
        ensures
            p.spec_port() == port,
    {
        ClientPlugin { port }
    }

    /// The configured port, as handed to `new`.
    pub fn port(&self) -> (r: u16)
        ensures
            r == self.spec_port(),
    {
        self.port
    }
}

} // verus!
