use proxy_stack::context::{
    source_addr, Context, Extension, ExtensionKind, Extensions, Forwarded, ForwardedElement,
    NodeId, SocketInfo,
};
use proxy_stack::haproxy::{Connection, HaProxyLayer, MemoryConnector};
use proxy_stack::middleware::{
    AddExtensionLayer, BodySide, FilterError, FilterLayer, HasExtension, HeaderMode, Middleware,
    MiddlewareLayer,
};
use proxy_stack::net::{IpAddr, SocketAddr};
use proxy_stack::server::HttpServer;
use proxy_stack::service::{Identity, Layer, Service, ServiceBuilder, Stack};
use proxy_stack::ua::UserAgentClassifierLayer;

fn v4(a: u8, b: u8, c: u8, d: u8, port: u16) -> SocketAddr {
    SocketAddr::new(IpAddr::v4(a, b, c, d), port)
}

#[test]
fn extension_map_holds_one_value_per_kind() {
    let mut ext = Extensions::new();
    assert_eq!(ext.get(ExtensionKind::SocketInfo), None);
    let first = SocketInfo::new(None, v4(1, 1, 1, 1, 1));
    let second = SocketInfo::new(Some(v4(9, 9, 9, 9, 9)), v4(2, 2, 2, 2, 2));
    ext.insert(Extension::SocketInfo(first));
    ext.insert(Extension::SocketInfo(second));
    assert_eq!(ext.get(ExtensionKind::SocketInfo), Some(Extension::SocketInfo(second)));
    assert_eq!(ext.get(ExtensionKind::Forwarded), None);
    assert_eq!(ext.remove(ExtensionKind::SocketInfo), Some(Extension::SocketInfo(second)));
    assert_eq!(ext.get(ExtensionKind::SocketInfo), None);
    assert_eq!(ext.remove(ExtensionKind::SocketInfo), None);
}

#[test]
fn source_prefers_forwarded_client() {
    let mut ext = Extensions::new();
    assert_eq!(source_addr(&ext), None);
    ext.insert(Extension::SocketInfo(SocketInfo::new(None, v4(10, 0, 0, 1, 1000))));
    assert_eq!(source_addr(&ext), Some(v4(10, 0, 0, 1, 1000)));
    ext.insert(Extension::Forwarded(Forwarded::new(ForwardedElement::forwarded_for(
        NodeId::from_socket_addr(v4(203, 0, 113, 7, 2000)),
    ))));
    assert_eq!(source_addr(&ext), Some(v4(203, 0, 113, 7, 2000)));
}

#[test]
fn context_keeps_state() {
    let ctx = Context::new(41u32);
    assert_eq!(*ctx.state(), 41);
}

#[test]
fn layered_service_calls_inner_once() {
    let svc = HaProxyLayer::tcp().v1().layer(MemoryConnector::new(v4(10, 0, 0, 2, 80)));
    let mut ctx = Context::new(());
    ctx.insert(Extension::SocketInfo(SocketInfo::new(None, v4(10, 0, 0, 1, 81))));
    let out = svc.serve(ctx, ()).unwrap();
    // the inner connector hands out a fresh stream: one call, one header
    assert_eq!(out.conn.bytes().clone(), b"PROXY TCP4 10.0.0.1 10.0.0.2 81 80\r\n".to_vec());
}

#[test]
fn added_extension_reaches_inner_service() {
    let svc = ServiceBuilder::new()
        .layer(HaProxyLayer::tcp().v1())
        .layer(AddExtensionLayer::new(Extension::SocketInfo(SocketInfo::new(
            None,
            v4(10, 0, 0, 1, 81),
        ))))
        .service(MemoryConnector::new(v4(10, 0, 0, 2, 80)));
    let out = svc.serve(Context::new(()), ()).unwrap();
    assert_eq!(out.conn.bytes().clone(), b"PROXY TCP4 10.0.0.1 10.0.0.2 81 80\r\n".to_vec());
    assert_eq!(out.conn.peer_addr(), v4(10, 0, 0, 2, 80));
}

#[test]
fn stack_grouping_does_not_change_the_service() {
    let ext = Extension::SocketInfo(SocketInfo::new(None, v4(10, 0, 0, 1, 81)));
    let a = HaProxyLayer::tcp().v1();
    let b = Identity;
    let c = AddExtensionLayer::new(ext);
    let left = Stack::new(Stack::new(c, b), a.clone());
    let right = Stack::new(c, Stack::new(b, a));
    let inner = MemoryConnector::new(v4(10, 0, 0, 2, 80));
    let l = left.layer(inner).serve(Context::new(()), ()).unwrap();
    let r = right.layer(inner).serve(Context::new(()), ()).unwrap();
    assert_eq!(l.conn.bytes().clone(), r.conn.bytes().clone());
    assert_eq!(l.conn.bytes().clone(), b"PROXY TCP4 10.0.0.1 10.0.0.2 81 80\r\n".to_vec());
}

#[test]
fn server_combinators_stack_layers_outermost_first() {
    let server = HttpServer::new(7u8).timeout(30_000).request_body_limit(1024);
    assert_eq!(server.builder, 7);
    assert!(matches!(
        server.service_builder.layer.inner.config,
        Middleware::RequestBodyLimit { limit: 1024 }
    ));
    assert!(matches!(
        server.service_builder.layer.outer.inner.config,
        Middleware::Timeout { millis: 30_000 }
    ));
}

#[test]
fn server_header_combinators() {
    let server = HttpServer::new(())
        .override_request_header("a".to_string(), "1".to_string())
        .append_response_header("b".to_string(), "2".to_string())
        .insert_request_header_if_not_present("c".to_string(), "3".to_string());
    match &server.service_builder.layer.inner.config {
        Middleware::SetRequestHeader { header, value, mode } => {
            assert_eq!(header, "c");
            assert_eq!(value, "3");
            assert_eq!(*mode, HeaderMode::IfNotPresent);
        }
        _ => panic!("expected a request header"),
    }
    match &server.service_builder.layer.outer.inner.config {
        Middleware::SetResponseHeader { mode, .. } => assert_eq!(*mode, HeaderMode::Append),
        _ => panic!("expected a response header"),
    }
}

#[test]
fn server_request_id_defaults() {
    let server = HttpServer::new(()).set_x_request_id().propagate_x_request_id();
    match &server.service_builder.layer.inner.config {
        Middleware::PropagateRequestId { header } => assert_eq!(header, "x-request-id"),
        _ => panic!("expected propagate request id"),
    }
    match &server.service_builder.layer.outer.inner.config {
        Middleware::SetRequestId { header } => assert_eq!(header, "x-request-id"),
        _ => panic!("expected set request id"),
    }
}

#[test]
fn server_service_wraps_in_every_layer() {
    let server = HttpServer::new(()).layer(HaProxyLayer::tcp().v1()).add_extension(
        Extension::SocketInfo(SocketInfo::new(None, v4(10, 0, 0, 1, 81))),
    );
    let http = server.service(MemoryConnector::new(v4(10, 0, 0, 2, 80)));
    let out = http.service.serve(Context::new(()), ()).unwrap();
    assert_eq!(out.conn.bytes().clone(), b"PROXY TCP4 10.0.0.1 10.0.0.2 81 80\r\n".to_vec());
}

#[test]
fn middleware_layer_copies_its_config() {
    let layer = MiddlewareLayer { config: Middleware::SensitiveHeaders { headers: vec!["authorization".to_string()] } };
    let svc = layer.layer(());
    match svc.config {
        Middleware::SensitiveHeaders { headers } => assert_eq!(headers, vec!["authorization".to_string()]),
        _ => panic!("config changed"),
    }
}

#[test]
fn user_agent_layer_configuration() {
    let layer = UserAgentClassifierLayer::new();
    assert_eq!(layer.overwrite_header, None);
    let layer = layer.overwrite_header("x-proxy-ua".to_string());
    let svc = layer.layer(5u8);
    assert_eq!(svc.inner, 5);
    assert_eq!(svc.overwrite_header.as_deref(), Some("x-proxy-ua"));
    let mut layer = UserAgentClassifierLayer::new();
    layer.set_overwrite_header("x-ua".to_string());
    assert_eq!(layer.overwrite_header.as_deref(), Some("x-ua"));
}

struct CountingConnector {
    peer: SocketAddr,
    calls: std::cell::Cell<u32>,
}

impl proxy_stack::haproxy::Connector<(), ()> for CountingConnector {
    type Conn = proxy_stack::haproxy::MemoryStream;
    type Error = ();

    fn may_connect(
        &self,
        _ctx: Context<()>,
        _req: (),
        _r: Result<proxy_stack::haproxy::EstablishedClientConnection<Self::Conn, (), ()>, ()>,
    ) -> bool {
        true
    }

    fn connect(
        &self,
        ctx: Context<()>,
        req: (),
    ) -> Result<proxy_stack::haproxy::EstablishedClientConnection<Self::Conn, (), ()>, ()> {
        self.calls.set(self.calls.get() + 1);
        Ok(proxy_stack::haproxy::EstablishedClientConnection {
            ctx,
            req,
            conn: proxy_stack::haproxy::MemoryStream::new(self.peer),
        })
    }
}

#[test]
fn proxy_layer_invokes_inner_exactly_once() {
    for v1 in [true, false] {
        let inner = CountingConnector { peer: v4(10, 0, 0, 2, 80), calls: std::cell::Cell::new(0) };
        let mut ctx = Context::new(());
        ctx.insert(Extension::SocketInfo(SocketInfo::new(None, v4(10, 0, 0, 1, 81))));
        if v1 {
            let svc = HaProxyLayer::tcp().v1().layer(inner);
            assert!(svc.serve(ctx, ()).is_ok());
            assert_eq!(svc.inner.calls.get(), 1);
        } else {
            let svc = HaProxyLayer::udp().layer(inner);
            assert!(svc.serve(ctx, ()).is_ok());
            assert_eq!(svc.inner.calls.get(), 1);
        }
    }
}

#[test]
fn filter_rejects_without_required_extension() {
    let svc = ServiceBuilder::new()
        .layer(FilterLayer::new(HasExtension { kind: ExtensionKind::SocketInfo }))
        .layer(HaProxyLayer::tcp().v1())
        .service(MemoryConnector::new(v4(10, 0, 0, 2, 80)));
    assert!(matches!(svc.serve(Context::new(()), ()), Err(FilterError::Rejected)));
    let mut ctx = Context::new(());
    ctx.insert(Extension::SocketInfo(SocketInfo::new(None, v4(10, 0, 0, 1, 81))));
    let out = svc.serve(ctx, ()).unwrap();
    assert_eq!(out.conn.bytes().clone(), b"PROXY TCP4 10.0.0.1 10.0.0.2 81 80\r\n".to_vec());
}

#[test]
fn server_body_mapping_layers() {
    let server = HttpServer::new(()).map_request_body(3u8).map_response_body(4u8);
    assert_eq!(server.service_builder.layer.inner.side, BodySide::Response);
    assert_eq!(server.service_builder.layer.inner.f, 4);
    assert_eq!(server.service_builder.layer.outer.inner.side, BodySide::Request);
    assert_eq!(server.service_builder.layer.outer.inner.f, 3);
}
