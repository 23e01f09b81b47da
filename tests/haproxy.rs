use proxy_stack::context::{Context, Extension, Forwarded, ForwardedElement, NodeId, SocketInfo};
use proxy_stack::haproxy::{
    Connection,
    HaProxyLayer, HaProxyService, HeaderError, MemoryConnector, MemoryStream, ProxyError,
};
use proxy_stack::net::{IpAddr, SocketAddr};
use proxy_stack::service::{Service, ServiceBuilder};

fn v4(a: u8, b: u8, c: u8, d: u8, port: u16) -> SocketAddr {
    SocketAddr::new(IpAddr::v4(a, b, c, d), port)
}

fn v6(segments: [u16; 8], port: u16) -> SocketAddr {
    SocketAddr::new(IpAddr::v6(segments), port)
}

const FWD6: [u16; 8] = [0x1234, 0x5678, 0x90ab, 0xcdef, 0xfedc, 0xba09, 0x8765, 0x4321];
const REV6: [u16; 8] = [0x4321, 0x8765, 0xba09, 0xfedc, 0xcdef, 0x90ab, 0x5678, 0x1234];

fn ctx_with_socket(peer: SocketAddr) -> Context<()> {
    let mut ctx = Context::new(());
    ctx.insert(Extension::SocketInfo(SocketInfo::new(None, peer)));
    ctx
}

fn ctx_with_forwarded(peer: SocketAddr, client: SocketAddr) -> Context<()> {
    let mut ctx = ctx_with_socket(peer);
    ctx.insert(Extension::Forwarded(Forwarded::new(ForwardedElement::forwarded_for(
        NodeId::from_socket_addr(client),
    ))));
    ctx
}

fn written(conn: &MemoryStream) -> Vec<u8> {
    conn.bytes().clone()
}

#[test]
fn test_v1_tcp() {
    let line4 = "PROXY TCP4 127.0.1.2 192.168.1.101 80 443\r\n";
    let line6 = "PROXY TCP6 1234:5678:90ab:cdef:fedc:ba09:8765:4321 4321:8765:ba09:fedc:cdef:90ab:5678:1234 443 65535\r\n";
    for (expected_line, input_ctx, target_addr) in [
        (line4, ctx_with_socket(v4(127, 0, 1, 2, 80)), v4(192, 168, 1, 101, 443)),
        (
            line4,
            ctx_with_forwarded(v6(FWD6, 443), v4(127, 0, 1, 2, 80)),
            v4(192, 168, 1, 101, 443),
        ),
        (line6, ctx_with_socket(v6(FWD6, 443)), v6(REV6, 65535)),
        (line6, ctx_with_forwarded(v4(127, 0, 1, 2, 80), v6(FWD6, 443)), v6(REV6, 65535)),
    ] {
        let svc = ServiceBuilder::new()
            .layer(HaProxyLayer::tcp().v1())
            .service(MemoryConnector::new(target_addr));
        let out = svc.serve(input_ctx, ()).unwrap();
        assert_eq!(written(&out.conn), expected_line.as_bytes().to_vec());
    }
}

#[test]
fn test_v1_tcp_ip_version_mismatch() {
    for (input_ctx, target_addr) in [
        (ctx_with_socket(v6(FWD6, 80)), v4(192, 168, 1, 101, 443)),
        (ctx_with_forwarded(v4(127, 0, 1, 2, 80), v6(FWD6, 80)), v4(192, 168, 1, 101, 443)),
        (ctx_with_socket(v4(127, 0, 1, 2, 80)), v6(REV6, 65535)),
        (ctx_with_forwarded(v6(FWD6, 80), v4(127, 0, 1, 2, 80)), v6(REV6, 65535)),
    ] {
        let svc = ServiceBuilder::new()
            .layer(HaProxyLayer::tcp().v1())
            .service(MemoryConnector::new(target_addr));
        assert!(svc.serve(input_ctx, ()).is_err());
    }
}

#[test]
fn test_v1_tcp_missing_src() {
    for (input_ctx, target_addr) in [
        (Context::new(()), v4(192, 168, 1, 101, 443)),
        (Context::new(()), v6(FWD6, 443)),
    ] {
        let svc = ServiceBuilder::new()
            .layer(HaProxyLayer::tcp().v1())
            .service(MemoryConnector::new(target_addr));
        assert!(svc.serve(input_ctx, ()).is_err());
    }
}

const V2_TCP4: [u8; 29] = [
    b'\r', b'\n', b'\r', b'\n', b'\0', b'\r', b'\n', b'Q', b'U', b'I', b'T', b'\n', 0x21, 0x11, 0,
    13, 127, 0, 0, 1, 192, 168, 1, 1, 0, 80, 1, 187, 42,
];

const V2_TCP6: [u8; 53] = [
    b'\r', b'\n', b'\r', b'\n', b'\0', b'\r', b'\n', b'Q', b'U', b'I', b'T', b'\n', 0x21, 0x21, 0,
    37, 0x12, 0x34, 0x56, 0x78, 0x90, 0xab, 0xcd, 0xef, 0xfe, 0xdc, 0xba, 0x09, 0x87, 0x65, 0x43,
    0x21, 0x43, 0x21, 0x87, 0x65, 0xba, 0x09, 0xfe, 0xdc, 0xcd, 0xef, 0x90, 0xab, 0x56, 0x78, 0x12,
    0x34, 0, 80, 1, 187, 42,
];

#[test]
fn test_v2_tcp4() {
    for input_ctx in [
        ctx_with_socket(v4(127, 0, 0, 1, 80)),
        ctx_with_forwarded(v6(FWD6, 443), v4(127, 0, 0, 1, 80)),
    ] {
        let svc = ServiceBuilder::new()
            .layer(HaProxyLayer::tcp().payload(vec![42]))
            .service(MemoryConnector::new(v4(192, 168, 1, 1, 443)));
        let out = svc.serve(input_ctx, ()).unwrap();
        assert_eq!(written(&out.conn), V2_TCP4.to_vec());
    }
}

#[test]
fn test_v2_udp4() {
    let mut expected = V2_TCP4.to_vec();
    expected[13] = 0x12;
    for input_ctx in [
        ctx_with_socket(v4(127, 0, 0, 1, 80)),
        ctx_with_forwarded(v6(FWD6, 443), v4(127, 0, 0, 1, 80)),
    ] {
        let svc = ServiceBuilder::new()
            .layer(HaProxyLayer::udp().payload(vec![42]))
            .service(MemoryConnector::new(v4(192, 168, 1, 1, 443)));
        let out = svc.serve(input_ctx, ()).unwrap();
        assert_eq!(written(&out.conn), expected);
    }
}

#[test]
fn test_v2_tcp6() {
    for input_ctx in [
        ctx_with_socket(v6(FWD6, 80)),
        ctx_with_forwarded(v4(127, 0, 0, 1, 80), v6(FWD6, 80)),
    ] {
        let svc = ServiceBuilder::new()
            .layer(HaProxyLayer::tcp().payload(vec![42]))
            .service(MemoryConnector::new(v6(REV6, 443)));
        let out = svc.serve(input_ctx, ()).unwrap();
        assert_eq!(written(&out.conn), V2_TCP6.to_vec());
    }
}

#[test]
fn test_v2_udp6() {
    let mut expected = V2_TCP6.to_vec();
    expected[13] = 0x22;
    for input_ctx in [
        ctx_with_socket(v6(FWD6, 80)),
        ctx_with_forwarded(v4(127, 0, 0, 1, 80), v6(FWD6, 80)),
    ] {
        let svc = ServiceBuilder::new()
            .layer(HaProxyLayer::udp().payload(vec![42]))
            .service(MemoryConnector::new(v6(REV6, 443)));
        let out = svc.serve(input_ctx, ()).unwrap();
        assert_eq!(written(&out.conn), expected);
    }
}

#[test]
fn test_v2_ip_version_mismatch() {
    for (input_ctx, target_addr) in [
        (ctx_with_socket(v6(FWD6, 80)), v4(192, 168, 1, 101, 443)),
        (ctx_with_forwarded(v4(127, 0, 1, 2, 80), v6(FWD6, 80)), v4(192, 168, 1, 101, 443)),
        (ctx_with_socket(v4(127, 0, 1, 2, 80)), v6(REV6, 65535)),
        (ctx_with_forwarded(v6(FWD6, 80), v4(127, 0, 1, 2, 80)), v6(REV6, 65535)),
    ] {
        let svc = ServiceBuilder::new()
            .layer(HaProxyLayer::tcp())
            .service(MemoryConnector::new(target_addr));
        assert!(svc.serve(input_ctx.clone(), ()).is_err());

        let svc = ServiceBuilder::new()
            .layer(HaProxyLayer::udp())
            .service(MemoryConnector::new(target_addr));
        assert!(svc.serve(input_ctx, ()).is_err());
    }
}

#[test]
fn test_v2_missing_src() {
    for (input_ctx, target_addr) in [
        (Context::new(()), v4(192, 168, 1, 101, 443)),
        (Context::new(()), v6(FWD6, 443)),
    ] {
        let svc = ServiceBuilder::new()
            .layer(HaProxyLayer::tcp())
            .service(MemoryConnector::new(target_addr));
        assert!(svc.serve(input_ctx.clone(), ()).is_err());

        let svc = ServiceBuilder::new()
            .layer(HaProxyLayer::udp())
            .service(MemoryConnector::new(target_addr));
        assert!(svc.serve(input_ctx.clone(), ()).is_err());
    }
}

#[test]
fn errors_name_their_cause() {
    let svc = HaProxyService::tcp(MemoryConnector::new(v4(192, 168, 1, 101, 443)));
    assert!(matches!(
        svc.serve(Context::new(()), ()),
        Err(ProxyError::Header(HeaderError::MissingSource))
    ));
    let svc = HaProxyService::udp(MemoryConnector::new(v6(REV6, 443)));
    assert!(matches!(
        svc.serve(ctx_with_socket(v4(127, 0, 0, 1, 80)), ()),
        Err(ProxyError::Header(HeaderError::FamilyMismatch))
    ));
    let svc = HaProxyService::tcp(MemoryConnector::new(v4(192, 168, 1, 101, 443))).v1();
    assert!(matches!(
        svc.serve(ctx_with_socket(v6(FWD6, 80)), ()),
        Err(ProxyError::Header(HeaderError::FamilyMismatch))
    ));
}

#[test]
fn service_constructors_match_layer() {
    let svc = HaProxyService::tcp(MemoryConnector::new(v4(192, 168, 1, 1, 443))).payload(vec![42]);
    let out = svc.serve(ctx_with_socket(v4(127, 0, 0, 1, 80)), ()).unwrap();
    assert_eq!(written(&out.conn), V2_TCP4.to_vec());

    let svc = HaProxyService::tcp(MemoryConnector::new(v4(192, 168, 1, 101, 443))).v1();
    let out = svc.serve(ctx_with_socket(v4(127, 0, 1, 2, 80)), ()).unwrap();
    assert_eq!(written(&out.conn), b"PROXY TCP4 127.0.1.2 192.168.1.101 80 443\r\n".to_vec());
}

#[test]
fn payload_is_dropped_on_downgrade_to_v1() {
    let svc = ServiceBuilder::new()
        .layer(HaProxyLayer::tcp().payload(vec![1, 2, 3]).v1())
        .service(MemoryConnector::new(v4(192, 168, 1, 101, 443)));
    let out = svc.serve(ctx_with_socket(v4(127, 0, 1, 2, 80)), ()).unwrap();
    assert_eq!(written(&out.conn), b"PROXY TCP4 127.0.1.2 192.168.1.101 80 443\r\n".to_vec());
}

#[test]
fn empty_payload_counts_address_block_only() {
    let svc = ServiceBuilder::new()
        .layer(HaProxyLayer::tcp().payload(vec![]))
        .service(MemoryConnector::new(v4(192, 168, 1, 1, 443)));
    let out = svc.serve(ctx_with_socket(v4(127, 0, 0, 1, 80)), ()).unwrap();
    let bytes = written(&out.conn);
    assert_eq!(bytes.len(), 28);
    assert_eq!(&bytes[14..16], &[0, 12]);
    assert_eq!(bytes[..14], V2_TCP4[..14]);
    assert_eq!(bytes[16..], V2_TCP4[16..28]);
}

#[test]
fn oversized_payload_is_rejected() {
    let svc = ServiceBuilder::new()
        .layer(HaProxyLayer::tcp().payload(vec![7; 65535 - 12 + 1]))
        .service(MemoryConnector::new(v4(192, 168, 1, 1, 443)));
    assert!(matches!(
        svc.serve(ctx_with_socket(v4(127, 0, 0, 1, 80)), ()),
        Err(ProxyError::Header(HeaderError::Encode(_)))
    ));

    let svc = ServiceBuilder::new()
        .layer(HaProxyLayer::tcp().payload(vec![7; 65535 - 12]))
        .service(MemoryConnector::new(v4(192, 168, 1, 1, 443)));
    let out = svc.serve(ctx_with_socket(v4(127, 0, 0, 1, 80)), ()).unwrap();
    let bytes = written(&out.conn);
    assert_eq!(&bytes[14..16], &[0xff, 0xff]);
    assert_eq!(bytes.len(), 16 + 65535);
}

#[test]
fn forwarded_client_is_the_announced_source() {
    let svc = ServiceBuilder::new()
        .layer(HaProxyLayer::tcp().v1())
        .service(MemoryConnector::new(v4(10, 0, 0, 2, 8080)));
    let ctx = ctx_with_forwarded(v4(10, 0, 0, 1, 5000), v4(203, 0, 113, 9, 4711));
    let out = svc.serve(ctx, ()).unwrap();
    assert_eq!(written(&out.conn), b"PROXY TCP4 203.0.113.9 10.0.0.2 4711 8080\r\n".to_vec());
}

#[test]
fn forwarded_without_port_falls_back_to_socket_info() {
    let svc = ServiceBuilder::new()
        .layer(HaProxyLayer::tcp().v1())
        .service(MemoryConnector::new(v4(10, 0, 0, 2, 8080)));
    let mut ctx = ctx_with_socket(v4(10, 0, 0, 1, 5000));
    ctx.insert(Extension::Forwarded(Forwarded::new(ForwardedElement::forwarded_for(
        NodeId::from_ip(IpAddr::v4(203, 0, 113, 9)),
    ))));
    let out = svc.serve(ctx, ()).unwrap();
    assert_eq!(written(&out.conn), b"PROXY TCP4 10.0.0.1 10.0.0.2 5000 8080\r\n".to_vec());
}

#[test]
fn context_and_request_are_handed_on() {
    let svc = ServiceBuilder::new()
        .layer(HaProxyLayer::tcp())
        .service(MemoryConnector::new(v4(192, 168, 1, 1, 443)));
    let out = svc.serve(ctx_with_socket(v4(127, 0, 0, 1, 80)), 17u32).unwrap();
    assert_eq!(out.req, 17);
    assert_eq!(out.conn.peer_addr(), v4(192, 168, 1, 1, 443));
    assert!(out.ctx.get(proxy_stack::context::ExtensionKind::SocketInfo).is_some());
}
