//! Middleware layers. The standard HTTP middleware is recorded here as
//! configuration in the service stack; applying it to HTTP messages is left
//! to the server that runs the stack. Extension and filter layers act on the
//! context and are services in their own right.
use vstd::prelude::*;
use crate::context::{inserted, Context, Extension, ExtensionKind};
use crate::haproxy::{Connector, EstablishedClientConnection};
use crate::service::{Layer, Service};

verus! {

/// How a set-header middleware treats a header that is already present.
#[derive(Clone, Copy, Debug, PartialEq, Eq)]
pub enum HeaderMode {
    /// Replace every present value.
    Override,
    /// Add a value after the present ones.
    Append,
    /// Set the header only if it is absent.
    IfNotPresent,
}

/// The configuration of one standard middleware.
#[derive(Clone, Debug)]
pub enum Middleware {
    /// Fail requests that take longer than `millis` milliseconds.
    Timeout { millis: u64 },
    /// Copy a header from the request to the response.
    PropagateHeader { header: String },
    /// Compress response bodies.
    Compression,
    /// Decompress request bodies.
    Decompression,
    /// Wrap each request in a trace span; 5xx responses count as failures.
    Trace,
    /// Follow redirect responses.
    FollowRedirects,
    /// Mark headers as sensitive, on requests and responses.
    SensitiveHeaders { headers: Vec<String> },
    /// Mark request headers as sensitive.
    SensitiveRequestHeaders { headers: Vec<String> },
    /// Mark response headers as sensitive.
    SensitiveResponseHeaders { headers: Vec<String> },
    /// Set a request header.
    SetRequestHeader { header: String, value: String, mode: HeaderMode },
    /// Set a response header.
    SetResponseHeader { header: String, value: String, mode: HeaderMode },
    /// Give each request an id in `header`, unless it has one.
    SetRequestId { header: String },
    /// Copy the request id in `header` to the response.
    PropagateRequestId { header: String },
    /// Turn a panic of the inner service into a `500` response.
    CatchPanic,
    /// Refuse request bodies longer than `limit` bytes.
    RequestBodyLimit { limit: usize },
    /// Remove trailing slashes from request paths.
    TrimTrailingSlash,
}

/// A service wrapped in one standard middleware.
#[derive(Clone, Debug)]
pub struct MiddlewareService<S> {
    pub inner: S,
    pub config: Middleware,
}

/// Layer that wraps a service in one standard middleware.
#[derive(Clone, Debug)]
pub struct MiddlewareLayer {
    pub config: Middleware,
}

fn copy_strings(v: &Vec<String>) -> (r: Vec<String>)
    ensures
        r@.len() == v@.len(),
        forall|i: int| 0 <= i < v@.len() ==> #[trigger] r@[i]@ == v@[i]@,
{
    let mut r: Vec<String> = Vec::new();
    let mut i: usize = 0;
    while i < v.len()
        invariant
            i <= v@.len(),
            r@.len() == i,
            forall|j: int| 0 <= j < i ==> #[trigger] r@[j]@ == v@[j]@,
        decreases v@.len() - i,
    {
        r.push(v[i].clone());
        i = i + 1;
    }
    r
}

/// Two lists of header names with the same text.
pub open spec fn same_names(a: Seq<String>, b: Seq<String>) -> bool {
    a.len() == b.len() && forall|i: int| 0 <= i < a.len() ==> #[trigger] a[i]@ == b[i]@
}

/// Two configurations that agree on every setting.
pub open spec fn same_config(a: Middleware, b: Middleware) -> bool {
    match (a, b) {
        (Middleware::Timeout { millis: x }, Middleware::Timeout { millis: y }) => x == y,
        (Middleware::PropagateHeader { header: x }, Middleware::PropagateHeader { header: y }) => x@
            == y@,
        (Middleware::Compression, Middleware::Compression) => true,
        (Middleware::Decompression, Middleware::Decompression) => true,
        (Middleware::Trace, Middleware::Trace) => true,
        (Middleware::FollowRedirects, Middleware::FollowRedirects) => true,
        (
            Middleware::SensitiveHeaders { headers: x },
            Middleware::SensitiveHeaders { headers: y },
        ) => same_names(x@, y@),
        (
            Middleware::SensitiveRequestHeaders { headers: x },
            Middleware::SensitiveRequestHeaders { headers: y },
        ) => same_names(x@, y@),
        (
            Middleware::SensitiveResponseHeaders { headers: x },
            Middleware::SensitiveResponseHeaders { headers: y },
        ) => same_names(x@, y@),
        (
            Middleware::SetRequestHeader { header: h1, value: v1, mode: m1 },
            Middleware::SetRequestHeader { header: h2, value: v2, mode: m2 },
        ) => h1@ == h2@ && v1@ == v2@ && m1 == m2,
        (
            Middleware::SetResponseHeader { header: h1, value: v1, mode: m1 },
            Middleware::SetResponseHeader { header: h2, value: v2, mode: m2 },
        ) => h1@ == h2@ && v1@ == v2@ && m1 == m2,
        (Middleware::SetRequestId { header: x }, Middleware::SetRequestId { header: y }) => x@
            == y@,
        (
            Middleware::PropagateRequestId { header: x },
            Middleware::PropagateRequestId { header: y },
        ) => x@ == y@,
        (Middleware::CatchPanic, Middleware::CatchPanic) => true,
        (Middleware::RequestBodyLimit { limit: x }, Middleware::RequestBodyLimit { limit: y }) => x
            == y,
        (Middleware::TrimTrailingSlash, Middleware::TrimTrailingSlash) => true,
        _ => false,
    }
}

fn copy_config(c: &Middleware) -> (r: Middleware)
    ensures
        same_config(r, *c),
{
    match c {
        Middleware::Timeout { millis } => Middleware::Timeout { millis: *millis },
        Middleware::PropagateHeader { header } => Middleware::PropagateHeader {
            header: header.clone(),
        },
        Middleware::Compression => Middleware::Compression,
        Middleware::Decompression => Middleware::Decompression,
        Middleware::Trace => Middleware::Trace,
        Middleware::FollowRedirects => Middleware::FollowRedirects,
        Middleware::SensitiveHeaders { headers } => Middleware::SensitiveHeaders {
            headers: copy_strings(headers),
        },
        Middleware::SensitiveRequestHeaders { headers } => Middleware::SensitiveRequestHeaders {
            headers: copy_strings(headers),
        },
        Middleware::SensitiveResponseHeaders { headers } => Middleware::SensitiveResponseHeaders {
            headers: copy_strings(headers),
        },
        Middleware::SetRequestHeader { header, value, mode } => Middleware::SetRequestHeader {
            header: header.clone(),
            value: value.clone(),
            mode: *mode,
        },
        Middleware::SetResponseHeader { header, value, mode } => Middleware::SetResponseHeader {
            header: header.clone(),
            value: value.clone(),
            mode: *mode,
        },
        Middleware::SetRequestId { header } => Middleware::SetRequestId { header: header.clone() },
        Middleware::PropagateRequestId { header } => Middleware::PropagateRequestId {
            header: header.clone(),
        },
        Middleware::CatchPanic => Middleware::CatchPanic,
        Middleware::RequestBodyLimit { limit } => Middleware::RequestBodyLimit { limit: *limit },
        Middleware::TrimTrailingSlash => Middleware::TrimTrailingSlash,
    }
}

impl<S> Layer<S> for MiddlewareLayer {
    type Service = MiddlewareService<S>;

    open spec fn may_layer(&self, inner: S, svc: MiddlewareService<S>) -> bool {
        svc.inner == inner && same_config(svc.config, self.config)
    }

    fn layer(&self, inner: S) -> (r: MiddlewareService<S>) {
        MiddlewareService { inner, config: copy_config(&self.config) }
    }
}

/// A service that stores an extension in the context before calling its
/// inner service.
#[derive(Clone, Copy, Debug)]
pub struct AddExtension<S> {
    pub inner: S,
    pub value: Extension,
}

/// Layer that wraps a service in `AddExtension`.
#[derive(Clone, Copy, Debug, PartialEq, Eq)]
pub struct AddExtensionLayer {
    pub value: Extension,
}

impl AddExtensionLayer {
    pub fn new(value: Extension) -> (r: AddExtensionLayer)
        ensures
            r.value == value,
    {
        AddExtensionLayer { value }
    }
}

impl<S> Layer<S> for AddExtensionLayer {
    type Service = AddExtension<S>;

    open spec fn may_layer(&self, inner: S, svc: AddExtension<S>) -> bool {
        svc.inner == inner && svc.value == self.value
    }

    fn layer(&self, inner: S) -> (r: AddExtension<S>) {
        AddExtension { inner, value: self.value }
    }
}

/// `ctx` with `e` stored in its extensions.
pub open spec fn with_extension<State>(ctx: Context<State>, e: Extension) -> Context<State> {
    Context { state: ctx.state, extensions: inserted(ctx.extensions, e) }
}

impl<State, Request, S: Service<State, Request>> Service<State, Request> for AddExtension<S> {
    type Response = S::Response;

    type Error = S::Error;

    open spec fn may_serve(
        &self,
        ctx: Context<State>,
        req: Request,
        r: Result<Self::Response, Self::Error>,
    ) -> bool {
        self.inner.may_serve(with_extension(ctx, self.value), req, r)
    }

    fn serve(&self, ctx: Context<State>, req: Request) -> (r: Result<Self::Response, Self::Error>) {
        let mut ctx = ctx;
        ctx.insert(self.value);
        self.inner.serve(ctx, req)
    }
}

impl<State, Request, S: Connector<State, Request>> Connector<State, Request> for AddExtension<S> {
    type Conn = S::Conn;

    type Error = S::Error;

    open spec fn may_connect(
        &self,
        ctx: Context<State>,
        req: Request,
        r: Result<EstablishedClientConnection<S::Conn, Request, State>, S::Error>,
    ) -> bool {
        self.inner.may_connect(with_extension(ctx, self.value), req, r)
    }

    fn connect(&self, ctx: Context<State>, req: Request) -> (r: Result<
        EstablishedClientConnection<S::Conn, Request, State>,
        S::Error,
    >) {
        let mut ctx = ctx;
        ctx.insert(self.value);
        self.inner.connect(ctx, req)
    }
}

/// Decides whether a request may pass.
pub trait Predicate<State, Request> {
    spec fn accepts(&self, ctx: Context<State>, req: Request) -> bool;

    fn check(&self, ctx: &Context<State>, req: &Request) -> (r: bool)
        ensures
            r == self.accepts(*ctx, *req),
    ;
}

/// Accepts the requests whose context holds an extension of `kind`.
#[derive(Clone, Copy, Debug, PartialEq, Eq)]
pub struct HasExtension {
    pub kind: ExtensionKind,
}

impl<State, Request> Predicate<State, Request> for HasExtension {
    open spec fn accepts(&self, ctx: Context<State>, req: Request) -> bool {
        ctx.extensions@.contains_key(self.kind)
    }

    fn check(&self, ctx: &Context<State>, req: &Request) -> (r: bool) {
        ctx.get(self.kind).is_some()
    }
}

/// Why a filtered service failed.
#[derive(Debug)]
pub enum FilterError<E> {
    /// The predicate refused the request.
    Rejected,
    /// The inner service failed.
    Inner(E),
}

/// A service that passes on only the requests its predicate accepts.
#[derive(Clone, Copy, Debug)]
pub struct Filter<S, P> {
    pub inner: S,
    pub predicate: P,
}

/// Layer that wraps a service in a `Filter`.
#[derive(Clone, Copy, Debug)]
pub struct FilterLayer<P> {
    pub predicate: P,
}

impl<P> FilterLayer<P> {
    pub fn new(predicate: P) -> (r: FilterLayer<P>)
        ensures
            r.predicate == predicate,
    {
        FilterLayer { predicate }
    }
}

impl<S, P: Copy> Layer<S> for FilterLayer<P> {
    type Service = Filter<S, P>;

    open spec fn may_layer(&self, inner: S, svc: Filter<S, P>) -> bool {
        svc.inner == inner && svc.predicate == self.predicate
    }

    fn layer(&self, inner: S) -> (r: Filter<S, P>) {
        Filter { inner, predicate: self.predicate }
    }
}

/// The inner outcome `ir`, its error wrapped.
pub open spec fn inner_failed<T, E>(ir: Result<T, E>) -> Result<T, FilterError<E>> {
    match ir {
        Ok(v) => Ok(v),
        Err(e) => Err(FilterError::Inner(e)),
    }
}

impl<State, Request, S: Service<State, Request>, P: Predicate<State, Request>> Service<
    State,
    Request,
> for Filter<S, P> {
    type Response = S::Response;

    type Error = FilterError<S::Error>;

    open spec fn may_serve(
        &self,
        ctx: Context<State>,
        req: Request,
        r: Result<Self::Response, Self::Error>,
    ) -> bool {
        if self.predicate.accepts(ctx, req) {
            exists|ir: Result<S::Response, S::Error>|
                #[trigger] self.inner.may_serve(ctx, req, ir) && r == inner_failed(ir)
        } else {
            r == Err::<S::Response, FilterError<S::Error>>(FilterError::Rejected)
        }
    }

    fn serve(&self, ctx: Context<State>, req: Request) -> (r: Result<Self::Response, Self::Error>) {
        if !self.predicate.check(&ctx, &req) {
            return Err(FilterError::Rejected);
        }
        let ghost g_ctx = ctx;
        let ghost g_req = req;
        let ir = self.inner.serve(ctx, req);
        let ghost g_ir = ir;
        let r: Result<S::Response, FilterError<S::Error>> = match ir {
            Ok(v) => Ok(v),
            Err(e) => Err(FilterError::Inner(e)),
        };
        assert(self.inner.may_serve(g_ctx, g_req, g_ir));
        r
    }
}

/// Which body a body-mapping layer transforms.
#[derive(Clone, Copy, Debug, PartialEq, Eq)]
pub enum BodySide {
    Request,
    Response,
}

/// A service whose request or response bodies pass through `f`.
#[derive(Clone, Copy, Debug)]
pub struct MapBody<S, F> {
    pub inner: S,
    pub side: BodySide,
    pub f: F,
}

/// Layer that wraps a service in a `MapBody`.
#[derive(Clone, Copy, Debug)]
pub struct MapBodyLayer<F> {
    pub side: BodySide,
    pub f: F,
}

impl<S, F: Copy> Layer<S> for MapBodyLayer<F> {
    type Service = MapBody<S, F>;

    open spec fn may_layer(&self, inner: S, svc: MapBody<S, F>) -> bool {
        svc.inner == inner && svc.side == self.side && svc.f == self.f
    }

    fn layer(&self, inner: S) -> (r: MapBody<S, F>) {
        MapBody { inner, side: self.side, f: self.f }
    }
}

} // verus!
