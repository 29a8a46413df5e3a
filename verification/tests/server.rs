use tls_boringssl::config::ConfigBuilder;
use tls_boringssl::server::Server;
use tls_boringssl::{
    bind_boringssl, BoringSSLAcceptor, BoringSSLConfig, DefaultAcceptor, HandshakeTimeout,
};

fn shared_context() -> BoringSSLConfig<String> {
    let mut builder: ConfigBuilder<&'static str> = BoringSSLConfig::<String>::try_from();
    builder.record(true);
    builder.build(String::from("context")).unwrap()
}

#[test]
fn bound_server_takes_connections_as_they_come() {
    let (addr, acceptor) = Server::bind("127.0.0.1:3000").into_parts();
    assert_eq!(addr, "127.0.0.1:3000");
    assert_eq!(acceptor, DefaultAcceptor);
}

#[test]
fn acceptor_of_a_server_can_be_replaced() {
    let (addr, acceptor) = Server::bind(3000u16).acceptor("other").into_parts();
    assert_eq!(addr, 3000);
    assert_eq!(acceptor, "other");
}

#[test]
fn bind_boringssl_wires_a_new_acceptor_to_the_address() {
    let config = shared_context();
    let server = bind_boringssl("127.0.0.1:3000", config.clone());
    let (addr, acceptor): (_, BoringSSLAcceptor<String>) = server.into_parts();
    assert_eq!(addr, "127.0.0.1:3000");
    assert_eq!(acceptor.timeout(), HandshakeTimeout::default());
    assert_eq!(*acceptor.inner(), DefaultAcceptor);

    let mut future = acceptor.accept::<u8>();
    let event: tls_boringssl::future::AcceptEvent<u8, u8, u8, u8> =
        tls_boringssl::future::AcceptEvent::InnerAccepted(1, 2);
    match future.poll(event) {
        tls_boringssl::future::AcceptAction::BeginHandshake { config: handed, .. } => {
            assert!(std::ptr::eq(handed.acceptor(), config.acceptor()));
        }
        other => panic!("{:?}", other),
    }
}
