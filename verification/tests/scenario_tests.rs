use quic_game::client::ClientConnectionEvent;
use quic_game::client::ClientData;
use quic_game::client::ClientPlugin;
use quic_game::client::client_connection_config;
use quic_game::queue::Fifo;
use quic_game::server::ServerConnectionEvent;
use quic_game::server::ServerData;
use quic_game::server::ServerPlugin;
use quic_game::server::server_endpoint_config;

// One connect-then-drain cycle between a server on port 5050 and a client
// configured for 127.0.0.1:5050: once both sides have drained the
// connection events the transport delivered, each connection counter
// equals exactly 1.
#[test]
fn it_connects_to_server() {
    let server_plugin = ServerPlugin::new(5050);
    let client_plugin = ClientPlugin::new(5050);

    // Bootstrap: the server listens where the client connects.
    let server_config = server_endpoint_config(server_plugin.port());
    let client_config = client_connection_config(client_plugin.port());
    assert_eq!(client_config.server_port, server_config.bind_port);
    assert_eq!(client_config.server_addr, quic_game::shared::server_ip());

    // The transport completes the handshake and queues one
    // connection-established event on each side.
    let mut server_incoming: Fifo<ServerConnectionEvent> = Fifo::new();
    server_incoming.push(ServerConnectionEvent { id: 1 });
    let mut client_incoming: Fifo<ClientConnectionEvent> = Fifo::new();
    client_incoming.push(ClientConnectionEvent { id: 0 });

    // Each side ticks once, draining its queue into its tally.
    let mut server_data = ServerData::default();
    server_data.handle_server_events(&server_incoming.drain());
    let mut client_data = ClientData::default();
    let actions = client_data.handle_client_events(
        &client_incoming.drain(),
        &Vec::new(),
        &Vec::new(),
        &Vec::new(),
    );

    assert_eq!(server_data.connection_events_received, 1);
    assert_eq!(client_data.connection_events_received, 1);
    assert_eq!(server_data.last_connected_client_id, Some(1));
    assert!(actions.is_empty());
}
