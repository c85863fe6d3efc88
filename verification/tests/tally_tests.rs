use quic_game::client::CertConnectionAbortEvent;
use quic_game::client::CertInteractionEvent;
use quic_game::client::CertTrustUpdateEvent;
use quic_game::client::CertVerificationInfo;
use quic_game::client::CertVerificationStatus;
use quic_game::client::CertVerifierAction;
use quic_game::client::ClientConnectionEvent;
use quic_game::client::ClientData;
use quic_game::client::ClientPlugin;
use quic_game::server::ServerConnectionEvent;
use quic_game::server::ServerData;
use quic_game::server::ServerPlugin;

fn sample_info(name: &str, fingerprint: &str) -> CertVerificationInfo {
    CertVerificationInfo {
        server_name: name.to_string(),
        fingerprint: fingerprint.to_string(),
        known_fingerprint: None,
    }
}

#[test]
fn tallies_start_empty() {
    let server = ServerData::default();
    assert_eq!(server.connection_events_received, 0);
    assert_eq!(server.last_connected_client_id, None);

    let client = ClientData::default();
    assert_eq!(client.connection_events_received, 0);
    assert_eq!(client.cert_trust_update_events_received, 0);
    assert!(client.last_trusted_cert_info.is_none());
    assert_eq!(client.cert_interactions_received, 0);
    assert!(client.last_cert_interactions_status.is_none());
    assert!(client.last_cert_interactions_info.is_none());
    assert_eq!(client.cert_verif_connection_abort_events_received, 0);
    assert!(client.last_abort_cert_status.is_none());
    assert!(client.last_abort_cert_info.is_none());
}

#[test]
fn server_drain_counts_exactly() {
    let mut data = ServerData::default();
    let events = vec![
        ServerConnectionEvent { id: 3 },
        ServerConnectionEvent { id: 5 },
        ServerConnectionEvent { id: 8 },
    ];
    data.handle_server_events(&events);
    assert_eq!(data.connection_events_received, 3);

    // A second drain adds exactly the new events, never resetting.
    data.handle_server_events(&vec![ServerConnectionEvent { id: 2 }]);
    assert_eq!(data.connection_events_received, 4);
}

#[test]
fn server_last_connected_is_most_recent() {
    let mut data = ServerData::default();
    data.handle_server_events(&vec![
        ServerConnectionEvent { id: 11 },
        ServerConnectionEvent { id: 22 },
    ]);
    assert_eq!(data.last_connected_client_id, Some(22));

    // However many clients connected before, a new connection overwrites.
    data.handle_server_events(&vec![ServerConnectionEvent { id: 33 }]);
    assert_eq!(data.last_connected_client_id, Some(33));
    assert_eq!(data.connection_events_received, 3);
}

#[test]
fn empty_drain_changes_nothing() {
    let mut data = ServerData::default();
    data.handle_server_events(&vec![ServerConnectionEvent { id: 4 }]);
    let count = data.connection_events_received;
    let last = data.last_connected_client_id;
    data.handle_server_events(&Vec::new());
    assert_eq!(data.connection_events_received, count);
    assert_eq!(data.last_connected_client_id, last);

    let mut client = ClientData::default();
    let actions = client.handle_client_events(&Vec::new(), &Vec::new(), &Vec::new(), &Vec::new());
    assert!(actions.is_empty());
    assert_eq!(client.connection_events_received, 0);
}

#[test]
fn client_drain_counts_each_category() {
    let mut data = ClientData::default();
    let connections = vec![ClientConnectionEvent { id: 0 }, ClientConnectionEvent { id: 1 }];
    let trust_updates = vec![
        CertTrustUpdateEvent { cert_info: sample_info("alpha", "fp-a") },
        CertTrustUpdateEvent { cert_info: sample_info("beta", "fp-b") },
        CertTrustUpdateEvent { cert_info: sample_info("gamma", "fp-c") },
    ];
    let interactions = vec![CertInteractionEvent {
        status: CertVerificationStatus::UntrustedCertificate,
        info: sample_info("delta", "fp-d"),
    }];
    let aborts: Vec<CertConnectionAbortEvent> = Vec::new();
    let actions = data.handle_client_events(&connections, &trust_updates, &interactions, &aborts);
    assert_eq!(data.connection_events_received, 2);
    assert_eq!(data.cert_trust_update_events_received, 3);
    assert_eq!(data.cert_interactions_received, 1);
    assert_eq!(data.cert_verif_connection_abort_events_received, 0);
    assert_eq!(actions.len(), 1);

    // Snapshots hold the most recent event of each category.
    let trusted = data.last_trusted_cert_info.as_ref().unwrap();
    assert_eq!(trusted.server_name, "gamma");
    assert_eq!(trusted.fingerprint, "fp-c");
    let interacted = data.last_cert_interactions_info.as_ref().unwrap();
    assert_eq!(interacted.server_name, "delta");
}

#[test]
fn client_untrusted_interaction_aborts_next_tick() {
    let mut data = ClientData::default();

    // Tick one: the interaction event is drained and answered by an abort.
    let interactions = vec![CertInteractionEvent {
        status: CertVerificationStatus::UntrustedCertificate,
        info: sample_info("server", "fp-s"),
    }];
    let actions = data.handle_client_events(&Vec::new(), &Vec::new(), &interactions, &Vec::new());
    assert_eq!(actions, vec![CertVerifierAction::AbortConnection]);
    assert_eq!(
        data.last_cert_interactions_status,
        Some(CertVerificationStatus::UntrustedCertificate)
    );
    assert_eq!(data.cert_verif_connection_abort_events_received, 0);

    // Tick two: the transport raises the abort event; the abort counter
    // increments by exactly one.
    let aborts = vec![CertConnectionAbortEvent {
        status: CertVerificationStatus::UntrustedCertificate,
        cert_info: sample_info("server", "fp-s"),
    }];
    data.handle_client_events(&Vec::new(), &Vec::new(), &Vec::new(), &aborts);
    assert_eq!(data.cert_verif_connection_abort_events_received, 1);
    assert_eq!(
        data.last_abort_cert_status,
        Some(CertVerificationStatus::UntrustedCertificate)
    );
}

#[test]
fn plugins_keep_their_port() {
    let client = ClientPlugin::new(6000);
    assert_eq!(client.port(), 6000);
    let server = ServerPlugin::new(6001);
    assert_eq!(server.port(), 6001);
}
