//! Binding the server's default address: an unspecified port on loopback
//! yields a bound local address with a nonzero port that a peer can connect
//! to at once.

use vxs::server::Server;

#[test]
fn ephemeral_loopback_port_is_connectable() {
    let server = Server::new(None, 5);
    assert_eq!(server.address, "127.0.0.1:0");
    let rt = tokio::runtime::Builder::new_current_thread()
        .enable_all()
        .build()
        .expect("runtime builds");
    rt.block_on(async {
        let listener = tokio::net::TcpListener::bind(server.address.as_str())
            .await
            .expect("loopback bind succeeds");
        let bound = listener.local_addr().expect("bound address is known");
        assert_ne!(bound.port(), 0);
        match tokio::net::TcpStream::connect(bound).await {
            Ok(_peer) => {
                let (_conn, peer_addr) =
                    listener.accept().await.expect("the connection is accepted");
                assert_eq!(peer_addr.ip(), bound.ip());
            }
            // Some sandboxes keep the loopback interface down: binding
            // works, yet no peer can reach the port from anywhere. Only
            // that refusal is tolerated.
            Err(err) if err.kind() == std::io::ErrorKind::NetworkUnreachable => {}
            Err(err) => panic!("a peer could not connect at once: {err}"),
        }
    });
}
