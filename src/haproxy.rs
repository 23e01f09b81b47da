//! A layer that announces the true endpoints of a freshly established
//! connection with a PROXY protocol header, before any other byte is sent.
use vstd::prelude::*;
use crate::context::{
    lemma_forwarded_wins, spec_client_socket_addr, spec_source_addr, source_addr, Context, Extension,
    ExtensionKind, Extensions, Forwarded, SocketInfo,
};
use crate::net::SocketAddr;
use crate::proxy_v1;
use crate::proxy_v2;
use crate::service::{Layer, Service};

verus! {

/// A byte stream to a peer.
pub trait Connection {
    type Error;

    /// The address of the peer.
    spec fn spec_peer_addr(&self) -> SocketAddr;

    /// All bytes written so far.
    spec fn written(&self) -> Seq<u8>;

    fn peer_addr(&self) -> (r: SocketAddr)
        ensures
            r == self.spec_peer_addr(),
    ;

    /// Writes all of `buf`; after a failure the stream is only fit to be dropped.
    fn write_all(&mut self, buf: &[u8]) -> (r: Result<(), Self::Error>)
        ensures
            final(self).spec_peer_addr() == old(self).spec_peer_addr(),
            r is Ok ==> final(self).written() == old(self).written() + buf@,
    ;
}

/// A connection that keeps what is written to it in memory.
#[derive(Clone, Debug)]
pub struct MemoryStream {
    pub peer: SocketAddr,
    pub buf: Vec<u8>,
}

impl MemoryStream {
    pub fn new(peer: SocketAddr) -> (r: MemoryStream)
        ensures
            r.spec_peer_addr() == peer,
            r.written() == Seq::<u8>::empty(),
    {
        MemoryStream { peer, buf: Vec::new() }
    }

    /// The bytes written so far.
    pub fn bytes(&self) -> (r: &Vec<u8>)
        ensures
            r@ == self.written(),
    {
        &self.buf
    }
}

impl Connection for MemoryStream {
    type Error = ();

    open spec fn spec_peer_addr(&self) -> SocketAddr {
        self.peer
    }

    open spec fn written(&self) -> Seq<u8> {
        self.buf@
    }

    fn peer_addr(&self) -> (r: SocketAddr) {
        self.peer
    }

    fn write_all(&mut self, buf: &[u8]) -> (r: Result<(), ()>) {
        proxy_v2::push_all(&mut self.buf, buf);
        Ok(())
    }
}

/// What a connecting service hands back: the context and request it was
/// given, and the connection it made.
pub struct EstablishedClientConnection<T, Request, State> {
    pub ctx: Context<State>,
    pub req: Request,
    pub conn: T,
}

/// Why no header could be made.
#[derive(Clone, Copy, Debug, PartialEq, Eq)]
pub enum HeaderError {
    /// Neither a `Forwarded` client nor a `SocketInfo` peer is known.
    MissingSource,
    /// Source and destination are of different IP families.
    FamilyMismatch,
    /// The version 2 encoder refused the header.
    Encode(proxy_v2::EncodeError),
}

/// Why the layer failed.
#[derive(Debug)]
pub enum ProxyError<E, W> {
    /// The inner service failed.
    Inner(E),
    /// No header could be made.
    Header(HeaderError),
    /// Writing the header failed.
    Io(W),
}

/// The version 1 header for a source and a destination.
pub open spec fn v1_header_between(src: SocketAddr, dst: SocketAddr) -> Result<Seq<u8>, HeaderError> {
    match proxy_v1::spec_from_endpoints(src, dst) {
        None => Err(HeaderError::FamilyMismatch),
        Some(a) => Ok(proxy_v1::v1_line(a)),
    }
}

/// The version 1 header for a destination, with the source from `ext`.
pub open spec fn spec_header_v1(ext: Extensions, dst: SocketAddr) -> Result<Seq<u8>, HeaderError> {
    match spec_source_addr(ext) {
        None => Err(HeaderError::MissingSource),
        Some(src) => v1_header_between(src, dst),
    }
}

/// The version 2 address block for two endpoints of one family.
pub open spec fn spec_v2_addresses(src: SocketAddr, dst: SocketAddr) -> Option<proxy_v2::Addresses> {
    match (src.ip, dst.ip) {
        (crate::net::IpAddr::V4(s), crate::net::IpAddr::V4(d)) => Some(
            proxy_v2::Addresses::IPv4 {
                src_ip: s,
                dst_ip: d,
                src_port: src.port,
                dst_port: dst.port,
            },
        ),
        (crate::net::IpAddr::V6(s), crate::net::IpAddr::V6(d)) => Some(
            proxy_v2::Addresses::IPv6 {
                src_ip: s,
                dst_ip: d,
                src_port: src.port,
                dst_port: dst.port,
            },
        ),
        _ => None,
    }
}

/// The version 2 `Proxy` header for a source and a destination, with
/// `payload` after the address block.
pub open spec fn v2_header_between(
    src: SocketAddr,
    dst: SocketAddr,
    protocol: proxy_v2::Protocol,
    payload: Seq<u8>,
) -> Result<Seq<u8>, HeaderError> {
    match spec_v2_addresses(src, dst) {
        None => Err(HeaderError::FamilyMismatch),
        Some(a) => if proxy_v2::body_len(a, payload) > proxy_v2::MAX_LENGTH {
            Err(HeaderError::Encode(proxy_v2::EncodeError::PayloadTooLarge))
        } else {
            Ok(proxy_v2::header_bytes(proxy_v2::Command::Proxy, protocol, a, payload))
        },
    }
}

/// The version 2 `Proxy` header for a destination, with the source from `ext`
/// and `payload` after the address block.
pub open spec fn spec_header_v2(
    ext: Extensions,
    dst: SocketAddr,
    protocol: proxy_v2::Protocol,
    payload: Seq<u8>,
) -> Result<Seq<u8>, HeaderError> {
    match spec_source_addr(ext) {
        None => Err(HeaderError::MissingSource),
        Some(src) => v2_header_between(src, dst, protocol, payload),
    }
}

/// The version 1 header announcing the source found in `ext` and `dst`.
pub fn header_v1(ext: &Extensions, dst: &SocketAddr) -> (r: Result<Vec<u8>, HeaderError>)
    ensures
        r matches Ok(v) ==> spec_header_v1(*ext, *dst) == Ok::<Seq<u8>, HeaderError>(v@),
        r matches Err(e) ==> spec_header_v1(*ext, *dst) == Err::<Seq<u8>, HeaderError>(e),
{
    let src = match source_addr(ext) {
        Some(a) => a,
        None => return Err(HeaderError::MissingSource),
    };
    match proxy_v1::Addresses::from_endpoints(&src, dst) {
        Some(a) => Ok(a.encode()),
        None => Err(HeaderError::FamilyMismatch),
    }
}

/// The version 2 `Proxy` header announcing the source found in `ext` and
/// `dst`, with `payload` after the address block.
pub fn header_v2(ext: &Extensions, dst: &SocketAddr, protocol: proxy_v2::Protocol, payload: &[u8]) -> (r:
    Result<Vec<u8>, HeaderError>)
    ensures
        r matches Ok(v) ==> spec_header_v2(*ext, *dst, protocol, payload@) == Ok::<
            Seq<u8>,
            HeaderError,
        >(v@),
        r matches Err(e) ==> spec_header_v2(*ext, *dst, protocol, payload@) == Err::<
            Seq<u8>,
            HeaderError,
        >(e),
{
    let src = match source_addr(ext) {
        Some(a) => a,
        None => return Err(HeaderError::MissingSource),
    };
    let addresses = match (src.ip, dst.ip) {
        (crate::net::IpAddr::V4(s), crate::net::IpAddr::V4(d)) => proxy_v2::Addresses::IPv4 {
            src_ip: s,
            dst_ip: d,
            src_port: src.port,
            dst_port: dst.port,
        },
        (crate::net::IpAddr::V6(s), crate::net::IpAddr::V6(d)) => proxy_v2::Addresses::IPv6 {
            src_ip: s,
            dst_ip: d,
            src_port: src.port,
            dst_port: dst.port,
        },
        _ => return Err(HeaderError::FamilyMismatch),
    };
    let builder = proxy_v2::Builder::with_addresses(proxy_v2::Command::Proxy, protocol, addresses);
    let builder = match builder.write_payload(payload) {
        Ok(b) => b,
        Err(e) => {
            assert(Seq::<u8>::empty() + payload@ =~= payload@);
            return Err(HeaderError::Encode(e));
        },
    };
    assert(Seq::<u8>::empty() + payload@ =~= payload@);
    match builder.build() {
        Ok(h) => Ok(h),
        Err(e) => Err(HeaderError::Encode(e)),
    }
}


/// Transport marker: TCP (`TCP4`/`TCP6` in version 1, `Stream` in version 2).
#[derive(Clone, Copy, Debug, PartialEq, Eq)]
pub struct Tcp;

/// Transport marker: UDP (`Datagram` in version 2; version 1 has no form for it).
#[derive(Clone, Copy, Debug, PartialEq, Eq)]
pub struct Udp;

/// A transport marker's version 2 protocol.
pub trait Protocol {
    spec fn spec_v2_protocol() -> proxy_v2::Protocol;

    fn v2_protocol() -> (r: proxy_v2::Protocol)
        ensures
            r == Self::spec_v2_protocol(),
    ;
}

impl Protocol for Tcp {
    open spec fn spec_v2_protocol() -> proxy_v2::Protocol {
        proxy_v2::Protocol::Stream
    }

    fn v2_protocol() -> (r: proxy_v2::Protocol) {
        proxy_v2::Protocol::Stream
    }
}

impl Protocol for Udp {
    open spec fn spec_v2_protocol() -> proxy_v2::Protocol {
        proxy_v2::Protocol::Datagram
    }

    fn v2_protocol() -> (r: proxy_v2::Protocol) {
        proxy_v2::Protocol::Datagram
    }
}

/// Version marker: the text protocol.
#[derive(Clone, Copy, Debug, PartialEq, Eq)]
pub struct One;

/// Version marker: the binary protocol, with an optional payload after the
/// address block.
#[derive(Clone, Debug)]
pub struct Two {
    pub payload: Option<Vec<u8>>,
}

/// The payload bytes, if any.
pub open spec fn payload_view(p: Option<Vec<u8>>) -> Option<Seq<u8>> {
    match p {
        Some(v) => Some(v@),
        None => None,
    }
}

/// The bytes written after the address block: the payload, or none.
pub open spec fn payload_bytes(p: Option<Vec<u8>>) -> Seq<u8> {
    match p {
        Some(v) => v@,
        None => Seq::<u8>::empty(),
    }
}

fn copy_payload(p: &Option<Vec<u8>>) -> (r: Option<Vec<u8>>)
    ensures
        payload_view(r) == payload_view(*p),
{
    match p {
        Some(v) => {
            let mut c: Vec<u8> = Vec::new();
            proxy_v2::push_all(&mut c, v.as_slice());
            assert(c@ =~= v@);
            Some(c)
        },
        None => None,
    }
}

/// Layer that wraps a connecting service in a `HaProxyService`.
#[derive(Clone, Debug)]
pub struct HaProxyLayer<P = Tcp, V = Two> {
    pub version: V,
    pub protocol: P,
}

impl HaProxyLayer<Tcp, Two> {
    /// TCP, version 2, no payload.
    pub fn tcp() -> (r: HaProxyLayer<Tcp, Two>)
        ensures
            r.version.payload is None,
    {
        HaProxyLayer { version: Two { payload: None }, protocol: Tcp }
    }

    /// Version 1 instead; a payload set before is dropped.
    pub fn v1(self) -> (r: HaProxyLayer<Tcp, One>)
        ensures
            r.version == One && r.protocol == Tcp,
    {
        HaProxyLayer { version: One, protocol: Tcp }
    }
}

impl HaProxyLayer<Udp, Two> {
    /// UDP, version 2, no payload.
    pub fn udp() -> (r: HaProxyLayer<Udp, Two>)
        ensures
            r.version.payload is None,
    {
        HaProxyLayer { version: Two { payload: None }, protocol: Udp }
    }
}

impl<P> HaProxyLayer<P, Two> {
    /// Sends `payload` after the address block of every header.
    pub fn payload(self, payload: Vec<u8>) -> (r: HaProxyLayer<P, Two>)
        ensures
            payload_view(r.version.payload) == Some(payload@),
    {
        HaProxyLayer { version: Two { payload: Some(payload) }, protocol: self.protocol }
    }
}

impl<S, P: Copy> Layer<S> for HaProxyLayer<P, One> {
    type Service = HaProxyService<S, P, One>;

    open spec fn may_layer(&self, inner: S, svc: HaProxyService<S, P, One>) -> bool {
        svc.inner == inner
    }

    fn layer(&self, inner: S) -> (r: HaProxyService<S, P, One>) {
        HaProxyService { inner, version: One, protocol: self.protocol }
    }
}

impl<S, P: Copy> Layer<S> for HaProxyLayer<P, Two> {
    type Service = HaProxyService<S, P, Two>;

    open spec fn may_layer(&self, inner: S, svc: HaProxyService<S, P, Two>) -> bool {
        svc.inner == inner && payload_view(svc.version.payload) == payload_view(self.version.payload)
    }

    fn layer(&self, inner: S) -> (r: HaProxyService<S, P, Two>) {
        HaProxyService {
            inner,
            version: Two { payload: copy_payload(&self.version.payload) },
            protocol: self.protocol,
        }
    }
}

/// Service that writes a PROXY header on each connection its inner service
/// establishes, and hands the connection on.
#[derive(Clone, Debug)]
pub struct HaProxyService<S, P = Tcp, V = Two> {
    pub inner: S,
    pub version: V,
    pub protocol: P,
}

impl<S> HaProxyService<S, Tcp, Two> {
    /// TCP, version 2, no payload.
    pub fn tcp(inner: S) -> (r: HaProxyService<S, Tcp, Two>)
        ensures
            r.inner == inner,
            r.version.payload is None,
    {
        HaProxyService { inner, version: Two { payload: None }, protocol: Tcp }
    }

    /// Version 1 instead; a payload set before is dropped.
    pub fn v1(self) -> (r: HaProxyService<S, Tcp, One>)
        ensures
            r.inner == self.inner,
            r.version == One && r.protocol == Tcp,
    {
        HaProxyService { inner: self.inner, version: One, protocol: Tcp }
    }
}

impl<S> HaProxyService<S, Udp, Two> {
    /// UDP, version 2, no payload.
    pub fn udp(inner: S) -> (r: HaProxyService<S, Udp, Two>)
        ensures
            r.inner == inner,
            r.version.payload is None,
    {
        HaProxyService { inner, version: Two { payload: None }, protocol: Udp }
    }
}

impl<S, P> HaProxyService<S, P, Two> {
    /// Sends `payload` after the address block of every header.
    pub fn payload(self, payload: Vec<u8>) -> (r: HaProxyService<S, P, Two>)
        ensures
            r.inner == self.inner,
            payload_view(r.version.payload) == Some(payload@),
    {
        HaProxyService {
            inner: self.inner,
            version: Two { payload: Some(payload) },
            protocol: self.protocol,
        }
    }
}

/// A service that establishes connections.
pub trait Connector<State, Request> {
    type Conn: Connection;

    type Error;

    /// Whether connecting for `req` in `ctx` may end in `r`.
    spec fn may_connect(
        &self,
        ctx: Context<State>,
        req: Request,
        r: Result<EstablishedClientConnection<Self::Conn, Request, State>, Self::Error>,
    ) -> bool;

    fn connect(&self, ctx: Context<State>, req: Request) -> (r: Result<
        EstablishedClientConnection<Self::Conn, Request, State>,
        Self::Error,
    >)
        ensures
            self.may_connect(ctx, req, r),
    ;
}

/// Connects to a fixed peer over a `MemoryStream`.
#[derive(Clone, Copy, Debug, PartialEq, Eq)]
pub struct MemoryConnector {
    pub peer: SocketAddr,
}

impl MemoryConnector {
    pub fn new(peer: SocketAddr) -> (r: MemoryConnector)
        ensures
            r.peer == peer,
    {
        MemoryConnector { peer }
    }
}

impl<State, Request> Connector<State, Request> for MemoryConnector {
    type Conn = MemoryStream;

    type Error = ();

    open spec fn may_connect(
        &self,
        ctx: Context<State>,
        req: Request,
        r: Result<EstablishedClientConnection<MemoryStream, Request, State>, ()>,
    ) -> bool {
        r matches Ok(c) && c.ctx == ctx && c.req == req && c.conn.peer == self.peer
            && c.conn.buf@ == Seq::<u8>::empty()
    }

    fn connect(&self, ctx: Context<State>, req: Request) -> (r: Result<
        EstablishedClientConnection<MemoryStream, Request, State>,
        (),
    >) {
        Ok(EstablishedClientConnection { ctx, req, conn: MemoryStream::new(self.peer) })
    }
}

/// How the layer ends once the inner service has connected with `c`, given
/// the header decided for it: with the header's error, with a write error,
/// or with `c` handed on after exactly the header was written to it.
pub open spec fn announced<T: Connection, Request, State, E>(
    c: EstablishedClientConnection<T, Request, State>,
    header: Result<Seq<u8>, HeaderError>,
    r: Result<EstablishedClientConnection<T, Request, State>, ProxyError<E, T::Error>>,
) -> bool {
    match header {
        Err(he) => r == Err::<EstablishedClientConnection<T, Request, State>, ProxyError<E, T::Error>>(
            ProxyError::Header(he),
        ),
        Ok(h) => match r {
            Ok(o) => o.ctx == c.ctx && o.req == c.req && o.conn.spec_peer_addr()
                == c.conn.spec_peer_addr() && o.conn.written() == c.conn.written() + h,
            Err(ProxyError::Io(_)) => true,
            Err(_) => false,
        },
    }
}

/// The version 1 header that connection `c` gets.
pub open spec fn header_for_v1<T: Connection, Request, State>(
    c: EstablishedClientConnection<T, Request, State>,
) -> Result<Seq<u8>, HeaderError> {
    spec_header_v1(c.ctx.extensions, c.conn.spec_peer_addr())
}

/// The version 2 header that connection `c` gets.
pub open spec fn header_for_v2<T: Connection, Request, State>(
    c: EstablishedClientConnection<T, Request, State>,
    protocol: proxy_v2::Protocol,
    payload: Seq<u8>,
) -> Result<Seq<u8>, HeaderError> {
    spec_header_v2(c.ctx.extensions, c.conn.spec_peer_addr(), protocol, payload)
}

impl<State, Request, P, S: Connector<State, Request>> Connector<State, Request> for HaProxyService<
    S,
    P,
    One,
> {
    type Conn = S::Conn;

    type Error = ProxyError<S::Error, <S::Conn as Connection>::Error>;

    open spec fn may_connect(
        &self,
        ctx: Context<State>,
        req: Request,
        r: Result<EstablishedClientConnection<S::Conn, Request, State>, Self::Error>,
    ) -> bool {
        exists|ir: Result<EstablishedClientConnection<S::Conn, Request, State>, S::Error>|
            #[trigger] self.inner.may_connect(ctx, req, ir) && match ir {
                Err(e) => r == Err::<EstablishedClientConnection<S::Conn, Request, State>, Self::Error>(
                    ProxyError::Inner(e),
                ),
                Ok(c) => announced(c, header_for_v1(c), r),
            }
    }

    fn connect(&self, ctx: Context<State>, req: Request) -> (r: Result<
        EstablishedClientConnection<S::Conn, Request, State>,
        Self::Error,
    >) {
        let ghost g_ctx = ctx;
        let ghost g_req = req;
        let ir = self.inner.connect(ctx, req);
        let ghost g_ir = ir;
        let r: Result<EstablishedClientConnection<S::Conn, Request, State>, Self::Error> = match ir {
            Err(e) => Err(ProxyError::Inner(e)),
            Ok(c) => {
                let EstablishedClientConnection { ctx, req, mut conn } = c;
                let dst = conn.peer_addr();
                match header_v1(&ctx.extensions, &dst) {
                    Err(he) => Err(ProxyError::Header(he)),
                    Ok(h) => match conn.write_all(h.as_slice()) {
                        Err(w) => Err(ProxyError::Io(w)),
                        Ok(()) => Ok(EstablishedClientConnection { ctx, req, conn }),
                    },
                }
            },
        };
        assert(self.inner.may_connect(g_ctx, g_req, g_ir));
        r
    }
}

impl<State, Request, P: Protocol, S: Connector<State, Request>> Connector<
    State,
    Request,
> for HaProxyService<S, P, Two> {
    type Conn = S::Conn;

    type Error = ProxyError<S::Error, <S::Conn as Connection>::Error>;

    open spec fn may_connect(
        &self,
        ctx: Context<State>,
        req: Request,
        r: Result<EstablishedClientConnection<S::Conn, Request, State>, Self::Error>,
    ) -> bool {
        exists|ir: Result<EstablishedClientConnection<S::Conn, Request, State>, S::Error>|
            #[trigger] self.inner.may_connect(ctx, req, ir) && match ir {
                Err(e) => r == Err::<EstablishedClientConnection<S::Conn, Request, State>, Self::Error>(
                    ProxyError::Inner(e),
                ),
                Ok(c) => announced(
                    c,
                    header_for_v2(c, P::spec_v2_protocol(), payload_bytes(self.version.payload)),
                    r,
                ),
            }
    }

    fn connect(&self, ctx: Context<State>, req: Request) -> (r: Result<
        EstablishedClientConnection<S::Conn, Request, State>,
        Self::Error,
    >) {
        let ghost g_ctx = ctx;
        let ghost g_req = req;
        let ir = self.inner.connect(ctx, req);
        let ghost g_ir = ir;
        let r: Result<EstablishedClientConnection<S::Conn, Request, State>, Self::Error> = match ir {
            Err(e) => Err(ProxyError::Inner(e)),
            Ok(c) => {
                let EstablishedClientConnection { ctx, req, mut conn } = c;
                let dst = conn.peer_addr();
                let empty: Vec<u8> = Vec::new();
                let payload: &[u8] = match &self.version.payload {
                    Some(p) => p.as_slice(),
                    None => empty.as_slice(),
                };
                assert(payload@ == payload_bytes(self.version.payload));
                match header_v2(&ctx.extensions, &dst, P::v2_protocol(), payload) {
                    Err(he) => Err(ProxyError::Header(he)),
                    Ok(h) => match conn.write_all(h.as_slice()) {
                        Err(w) => Err(ProxyError::Io(w)),
                        Ok(()) => Ok(EstablishedClientConnection { ctx, req, conn }),
                    },
                }
            },
        };
        assert(self.inner.may_connect(g_ctx, g_req, g_ir));
        r
    }
}

impl<State, Request, P, S: Connector<State, Request>> Service<State, Request> for HaProxyService<
    S,
    P,
    One,
> {
    type Response = EstablishedClientConnection<S::Conn, Request, State>;

    type Error = ProxyError<S::Error, <S::Conn as Connection>::Error>;

    open spec fn may_serve(
        &self,
        ctx: Context<State>,
        req: Request,
        r: Result<Self::Response, Self::Error>,
    ) -> bool {
        self.may_connect(ctx, req, r)
    }

    fn serve(&self, ctx: Context<State>, req: Request) -> (r: Result<Self::Response, Self::Error>) {
        self.connect(ctx, req)
    }
}

impl<State, Request, P: Protocol, S: Connector<State, Request>> Service<
    State,
    Request,
> for HaProxyService<S, P, Two> {
    type Response = EstablishedClientConnection<S::Conn, Request, State>;

    type Error = ProxyError<S::Error, <S::Conn as Connection>::Error>;

    open spec fn may_serve(
        &self,
        ctx: Context<State>,
        req: Request,
        r: Result<Self::Response, Self::Error>,
    ) -> bool {
        self.may_connect(ctx, req, r)
    }

    fn serve(&self, ctx: Context<State>, req: Request) -> (r: Result<Self::Response, Self::Error>) {
        self.connect(ctx, req)
    }
}

/// Where the context holds a `Forwarded` extension that names a client, the
/// header announces that client as the source, whatever `SocketInfo` holds.
pub proof fn lemma_forwarded_source_announced(
    ext: Extensions,
    f: Forwarded,
    info: SocketInfo,
    src: SocketAddr,
    dst: SocketAddr,
    protocol: proxy_v2::Protocol,
    payload: Seq<u8>,
)
    requires
        ext@.contains_key(ExtensionKind::Forwarded),
        ext@[ExtensionKind::Forwarded] == Extension::Forwarded(f),
        ext@.contains_key(ExtensionKind::SocketInfo),
        ext@[ExtensionKind::SocketInfo] == Extension::SocketInfo(info),
        spec_client_socket_addr(f) == Some(src),
    ensures
        spec_header_v1(ext, dst) == v1_header_between(src, dst),
        spec_header_v2(ext, dst, protocol, payload) == v2_header_between(src, dst, protocol, payload),
{
    lemma_forwarded_wins(ext, f, src);
}

/// A version 1 service succeeds only through one successful connection of its
/// inner service: it hands on that connection's context and request, and
/// adds exactly the header to what was written on it.
pub proof fn lemma_v1_success_through_inner<State, Request, P, S: Connector<State, Request>>(
    svc: HaProxyService<S, P, One>,
    ctx: Context<State>,
    req: Request,
    out: EstablishedClientConnection<S::Conn, Request, State>,
)
    requires
        svc.may_serve(ctx, req, Ok(out)),
    ensures
        exists|c: EstablishedClientConnection<S::Conn, Request, State>|
            #[trigger] svc.inner.may_connect(ctx, req, Ok(c)) && header_for_v1(c) is Ok
                && out.ctx == c.ctx && out.req == c.req && out.conn.spec_peer_addr()
                == c.conn.spec_peer_addr() && out.conn.written() == c.conn.written()
                + header_for_v1(c)->Ok_0,
{
}

/// A version 2 service succeeds only through one successful connection of its
/// inner service: it hands on that connection's context and request, and
/// adds exactly the header to what was written on it.
pub proof fn lemma_v2_success_through_inner<
    State,
    Request,
    P: Protocol,
    S: Connector<State, Request>,
>(
    svc: HaProxyService<S, P, Two>,
    ctx: Context<State>,
    req: Request,
    out: EstablishedClientConnection<S::Conn, Request, State>,
)
    requires
        svc.may_serve(ctx, req, Ok(out)),
    ensures
        exists|c: EstablishedClientConnection<S::Conn, Request, State>|
            #[trigger] svc.inner.may_connect(ctx, req, Ok(c)) && header_for_v2(
                c,
                P::spec_v2_protocol(),
                payload_bytes(svc.version.payload),
            ) is Ok && out.ctx == c.ctx && out.req == c.req && out.conn.spec_peer_addr()
                == c.conn.spec_peer_addr() && out.conn.written() == c.conn.written()
                + header_for_v2(c, P::spec_v2_protocol(), payload_bytes(svc.version.payload))->Ok_0,
{
}

} // verus!
