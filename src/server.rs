//! An HTTP server's service stack, built up one middleware at a time.
use vstd::prelude::*;
use crate::context::Extension;
use crate::middleware::{
    AddExtensionLayer, BodySide, FilterLayer, HeaderMode, MapBodyLayer, Middleware, MiddlewareLayer,
};
use crate::service::{Identity, Layer, ServiceBuilder, Stack};
use std::sync::Arc;

verus! {

/// A connection builder together with the layers its service gets.
#[derive(Clone, Debug)]
pub struct HttpServer<B, L> {
    pub builder: B,
    pub service_builder: ServiceBuilder<L>,
}

/// The request-id header used by `set_x_request_id` and `propagate_x_request_id`.
pub open spec fn x_request_id() -> Seq<char> {
    seq!['x', '-', 'r', 'e', 'q', 'u', 'e', 's', 't', '-', 'i', 'd']
}

fn x_request_id_header() -> (r: String)
    ensures
        r@ == x_request_id(),
{
    let r = "x-request-id".to_owned();
    proof {
        reveal_strlit("x-request-id");
    }
    assert(r@ =~= x_request_id());
    r
}

impl<B> HttpServer<B, Identity> {
    /// A server over `builder`, with no layers yet.
    pub fn new(builder: B) -> (r: HttpServer<B, Identity>)
        ensures
            r.builder == builder,
            r.service_builder.layer == Identity,
    {
        HttpServer { builder, service_builder: ServiceBuilder::new() }
    }
}

impl<B, L> HttpServer<B, L> {
    /// Adds `layer` inside the layers added so far.
    pub fn layer<T>(self, layer: T) -> (r: HttpServer<B, Stack<T, L>>)
        ensures
            r.builder == self.builder,
            r.service_builder.layer == (Stack { inner: layer, outer: self.service_builder.layer }),
    {
        HttpServer { builder: self.builder, service_builder: self.service_builder.layer(layer) }
    }

    fn middleware(self, config: Middleware) -> (r: HttpServer<B, Stack<MiddlewareLayer, L>>)
        ensures
            r.builder == self.builder,
            r.service_builder.layer == (Stack {
                inner: MiddlewareLayer { config },
                outer: self.service_builder.layer,
            }),
    {
        self.layer(MiddlewareLayer { config })
    }

    /// Fails requests that take longer than `millis` milliseconds.
    pub fn timeout(self, millis: u64) -> (r: HttpServer<B, Stack<MiddlewareLayer, L>>)
        ensures
            r.builder == self.builder,
            r.service_builder.layer == (Stack {
                inner: MiddlewareLayer { config: Middleware::Timeout { millis } },
                outer: self.service_builder.layer,
            }),
    {
        self.middleware(Middleware::Timeout { millis })
    }

    /// Rejects the requests that `predicate` refuses.
    pub fn filter<P>(self, predicate: P) -> (r: HttpServer<B, Stack<FilterLayer<P>, L>>)
        ensures
            r.builder == self.builder,
            r.service_builder.layer == (Stack {
                inner: FilterLayer { predicate },
                outer: self.service_builder.layer,
            }),
    {
        self.layer(FilterLayer::new(predicate))
    }

    /// Rejects the requests that `predicate` refuses; the predicate may
    /// take its time, as every service call may.
    pub fn filter_async<P>(self, predicate: P) -> (r: HttpServer<B, Stack<FilterLayer<P>, L>>)
        ensures
            r.builder == self.builder,
            r.service_builder.layer == (Stack {
                inner: FilterLayer { predicate },
                outer: self.service_builder.layer,
            }),
    {
        self.layer(FilterLayer::new(predicate))
    }

    /// Copies `header` from the request to the response.
    pub fn propagate_header(self, header: String) -> (r: HttpServer<B, Stack<MiddlewareLayer, L>>)
        ensures
            r.builder == self.builder,
            r.service_builder.layer == (Stack {
                inner: MiddlewareLayer { config: Middleware::PropagateHeader { header } },
                outer: self.service_builder.layer,
            }),
    {
        self.middleware(Middleware::PropagateHeader { header })
    }

    /// Stores `value` in each request's context.
    pub fn add_extension(self, value: Extension) -> (r: HttpServer<
        B,
        Stack<AddExtensionLayer, L>,
    >)
        ensures
            r.builder == self.builder,
            r.service_builder.layer == (Stack {
                inner: AddExtensionLayer { value },
                outer: self.service_builder.layer,
            }),
    {
        self.layer(AddExtensionLayer::new(value))
    }

    /// Passes request bodies through `f`.
    pub fn map_request_body<F>(self, f: F) -> (r: HttpServer<B, Stack<MapBodyLayer<F>, L>>)
        ensures
            r.builder == self.builder,
            r.service_builder.layer == (Stack {
                inner: MapBodyLayer { side: BodySide::Request, f },
                outer: self.service_builder.layer,
            }),
    {
        self.layer(MapBodyLayer { side: BodySide::Request, f })
    }

    /// Passes response bodies through `f`.
    pub fn map_response_body<F>(self, f: F) -> (r: HttpServer<B, Stack<MapBodyLayer<F>, L>>)
        ensures
            r.builder == self.builder,
            r.service_builder.layer == (Stack {
                inner: MapBodyLayer { side: BodySide::Response, f },
                outer: self.service_builder.layer,
            }),
    {
        self.layer(MapBodyLayer { side: BodySide::Response, f })
    }

    /// Compresses response bodies.
    pub fn compression(self) -> (r: HttpServer<B, Stack<MiddlewareLayer, L>>)
        ensures
            r.builder == self.builder,
            r.service_builder.layer == (Stack {
                inner: MiddlewareLayer { config: Middleware::Compression },
                outer: self.service_builder.layer,
            }),
    {
        self.middleware(Middleware::Compression)
    }

    /// Decompresses request bodies.
    pub fn decompression(self) -> (r: HttpServer<B, Stack<MiddlewareLayer, L>>)
        ensures
            r.builder == self.builder,
            r.service_builder.layer == (Stack {
                inner: MiddlewareLayer { config: Middleware::Decompression },
                outer: self.service_builder.layer,
            }),
    {
        self.middleware(Middleware::Decompression)
    }

    /// Traces each request; 5xx responses count as failures.
    pub fn trace(self) -> (r: HttpServer<B, Stack<MiddlewareLayer, L>>)
        ensures
            r.builder == self.builder,
            r.service_builder.layer == (Stack {
                inner: MiddlewareLayer { config: Middleware::Trace },
                outer: self.service_builder.layer,
            }),
    {
        self.middleware(Middleware::Trace)
    }

    /// Follows redirect responses.
    pub fn follow_redirects(self) -> (r: HttpServer<B, Stack<MiddlewareLayer, L>>)
        ensures
            r.builder == self.builder,
            r.service_builder.layer == (Stack {
                inner: MiddlewareLayer { config: Middleware::FollowRedirects },
                outer: self.service_builder.layer,
            }),
    {
        self.middleware(Middleware::FollowRedirects)
    }

    /// Marks `headers` as sensitive on requests and responses.
    pub fn sensitive_headers(self, headers: Vec<String>) -> (r: HttpServer<
        B,
        Stack<MiddlewareLayer, L>,
    >)
        ensures
            r.builder == self.builder,
            r.service_builder.layer == (Stack {
                inner: MiddlewareLayer { config: Middleware::SensitiveHeaders { headers } },
                outer: self.service_builder.layer,
            }),
    {
        self.middleware(Middleware::SensitiveHeaders { headers })
    }

    /// Marks `headers` as sensitive on requests.
    pub fn sensitive_request_headers(self, headers: Vec<String>) -> (r: HttpServer<
        B,
        Stack<MiddlewareLayer, L>,
    >)
        ensures
            r.builder == self.builder,
            r.service_builder.layer == (Stack {
                inner: MiddlewareLayer { config: Middleware::SensitiveRequestHeaders { headers } },
                outer: self.service_builder.layer,
            }),
    {
        self.middleware(Middleware::SensitiveRequestHeaders { headers })
    }

    /// Marks `headers` as sensitive on responses.
    pub fn sensitive_response_headers(self, headers: Vec<String>) -> (r: HttpServer<
        B,
        Stack<MiddlewareLayer, L>,
    >)
        ensures
            r.builder == self.builder,
            r.service_builder.layer == (Stack {
                inner: MiddlewareLayer { config: Middleware::SensitiveResponseHeaders { headers } },
                outer: self.service_builder.layer,
            }),
    {
        self.middleware(Middleware::SensitiveResponseHeaders { headers })
    }

    /// Sets `header` to `value` on every request, replacing present values.
    pub fn override_request_header(self, header: String, value: String) -> (r: HttpServer<
        B,
        Stack<MiddlewareLayer, L>,
    >)
        ensures
            r.builder == self.builder,
            r.service_builder.layer == (Stack {
                inner: MiddlewareLayer {
                    config: Middleware::SetRequestHeader { header, value, mode: HeaderMode::Override },
                },
                outer: self.service_builder.layer,
            }),
    {
        self.middleware(Middleware::SetRequestHeader { header, value, mode: HeaderMode::Override })
    }

    /// Adds `value` to `header` on every request.
    pub fn append_request_header(self, header: String, value: String) -> (r: HttpServer<
        B,
        Stack<MiddlewareLayer, L>,
    >)
        ensures
            r.builder == self.builder,
            r.service_builder.layer == (Stack {
                inner: MiddlewareLayer {
                    config: Middleware::SetRequestHeader { header, value, mode: HeaderMode::Append },
                },
                outer: self.service_builder.layer,
            }),
    {
        self.middleware(Middleware::SetRequestHeader { header, value, mode: HeaderMode::Append })
    }

    /// Sets `header` to `value` on the requests that lack it.
    pub fn insert_request_header_if_not_present(self, header: String, value: String) -> (r:
        HttpServer<B, Stack<MiddlewareLayer, L>>)
        ensures
            r.builder == self.builder,
            r.service_builder.layer == (Stack {
                inner: MiddlewareLayer {
                    config: Middleware::SetRequestHeader {
                        header,
                        value,
                        mode: HeaderMode::IfNotPresent,
                    },
                },
                outer: self.service_builder.layer,
            }),
    {
        self.middleware(
            Middleware::SetRequestHeader { header, value, mode: HeaderMode::IfNotPresent },
        )
    }

    /// Sets `header` to `value` on every response, replacing present values.
    pub fn override_response_header(self, header: String, value: String) -> (r: HttpServer<
        B,
        Stack<MiddlewareLayer, L>,
    >)
        ensures
            r.builder == self.builder,
            r.service_builder.layer == (Stack {
                inner: MiddlewareLayer {
                    config: Middleware::SetResponseHeader { header, value, mode: HeaderMode::Override },
                },
                outer: self.service_builder.layer,
            }),
    {
        self.middleware(Middleware::SetResponseHeader { header, value, mode: HeaderMode::Override })
    }

    /// Adds `value` to `header` on every response.
    pub fn append_response_header(self, header: String, value: String) -> (r: HttpServer<
        B,
        Stack<MiddlewareLayer, L>,
    >)
        ensures
            r.builder == self.builder,
            r.service_builder.layer == (Stack {
                inner: MiddlewareLayer {
                    config: Middleware::SetResponseHeader { header, value, mode: HeaderMode::Append },
                },
                outer: self.service_builder.layer,
            }),
    {
        self.middleware(Middleware::SetResponseHeader { header, value, mode: HeaderMode::Append })
    }

    /// Sets `header` to `value` on the responses that lack it.
    pub fn insert_response_header_if_not_present(self, header: String, value: String) -> (r:
        HttpServer<B, Stack<MiddlewareLayer, L>>)
        ensures
            r.builder == self.builder,
            r.service_builder.layer == (Stack {
                inner: MiddlewareLayer {
                    config: Middleware::SetResponseHeader {
                        header,
                        value,
                        mode: HeaderMode::IfNotPresent,
                    },
                },
                outer: self.service_builder.layer,
            }),
    {
        self.middleware(
            Middleware::SetResponseHeader { header, value, mode: HeaderMode::IfNotPresent },
        )
    }

    /// Gives each request an id in `header`, unless it has one.
    pub fn set_request_id(self, header: String) -> (r: HttpServer<B, Stack<MiddlewareLayer, L>>)
        ensures
            r.builder == self.builder,
            r.service_builder.layer == (Stack {
                inner: MiddlewareLayer { config: Middleware::SetRequestId { header } },
                outer: self.service_builder.layer,
            }),
    {
        self.middleware(Middleware::SetRequestId { header })
    }

    /// Gives each request an id in `x-request-id`, unless it has one.
    pub fn set_x_request_id(self) -> (r: HttpServer<B, Stack<MiddlewareLayer, L>>)
        ensures
            r.builder == self.builder,
            r.service_builder.layer.outer == self.service_builder.layer,
            r.service_builder.layer.inner.config matches Middleware::SetRequestId { header }
                && header@ == x_request_id(),
    {
        self.middleware(Middleware::SetRequestId { header: x_request_id_header() })
    }

    /// Copies the request id in `header` to the response.
    pub fn propagate_request_id(self, header: String) -> (r: HttpServer<
        B,
        Stack<MiddlewareLayer, L>,
    >)
        ensures
            r.builder == self.builder,
            r.service_builder.layer == (Stack {
                inner: MiddlewareLayer { config: Middleware::PropagateRequestId { header } },
                outer: self.service_builder.layer,
            }),
    {
        self.middleware(Middleware::PropagateRequestId { header })
    }

    /// Copies the request id in `x-request-id` to the response.
    pub fn propagate_x_request_id(self) -> (r: HttpServer<B, Stack<MiddlewareLayer, L>>)
        ensures
            r.builder == self.builder,
            r.service_builder.layer.outer == self.service_builder.layer,
            r.service_builder.layer.inner.config matches Middleware::PropagateRequestId { header }
                && header@ == x_request_id(),
    {
        self.middleware(Middleware::PropagateRequestId { header: x_request_id_header() })
    }

    /// Turns a panic of the inner service into a `500` response.
    pub fn catch_panic(self) -> (r: HttpServer<B, Stack<MiddlewareLayer, L>>)
        ensures
            r.builder == self.builder,
            r.service_builder.layer == (Stack {
                inner: MiddlewareLayer { config: Middleware::CatchPanic },
                outer: self.service_builder.layer,
            }),
    {
        self.middleware(Middleware::CatchPanic)
    }

    /// Refuses request bodies longer than `limit` bytes.
    pub fn request_body_limit(self, limit: usize) -> (r: HttpServer<B, Stack<MiddlewareLayer, L>>)
        ensures
            r.builder == self.builder,
            r.service_builder.layer == (Stack {
                inner: MiddlewareLayer { config: Middleware::RequestBodyLimit { limit } },
                outer: self.service_builder.layer,
            }),
    {
        self.middleware(Middleware::RequestBodyLimit { limit })
    }

    /// Removes trailing slashes from request paths.
    pub fn trim_trailing_slash(self) -> (r: HttpServer<B, Stack<MiddlewareLayer, L>>)
        ensures
            r.builder == self.builder,
            r.service_builder.layer == (Stack {
                inner: MiddlewareLayer { config: Middleware::TrimTrailingSlash },
                outer: self.service_builder.layer,
            }),
    {
        self.middleware(Middleware::TrimTrailingSlash)
    }

    /// The server's connection builder with `service` wrapped in every layer.
    pub fn service<S>(self, service: S) -> (r: HttpService<B, L::Service>) where L: Layer<S>
        ensures
            *r.builder == self.builder,
            self.service_builder.layer.may_layer(service, *r.service),
    {
        let svc = self.service_builder.service(service);
        HttpService::new(self.builder, svc)
    }
}

/// A connection builder and the fully layered service it serves, both shared.
#[derive(Debug)]
pub struct HttpService<B, S> {
    pub builder: Arc<B>,
    pub service: Arc<S>,
}

impl<B, S> HttpService<B, S> {
    pub fn new(builder: B, service: S) -> (r: HttpService<B, S>)
        ensures
            *r.builder == builder,
            *r.service == service,
    {
        HttpService { builder: Arc::new(builder), service: Arc::new(service) }
    }
}

} // verus!
