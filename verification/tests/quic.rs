use dns_ingress::quic::client::client_bind_address;
use dns_ingress::quic::config::QuicApplication;

#[test]
fn test_quic_application_alpn_is_protocol_specific() {
    assert_eq!(QuicApplication::Doq.alpn(), b"doq");
    assert_eq!(QuicApplication::H3.alpn(), b"h3");
}

#[test]
fn clients_bind_to_the_family_of_the_upstream() {
    assert_eq!(client_bind_address(true), "0.0.0.0:0");
    assert_eq!(client_bind_address(false), "[::]:0");
}
