//! Configuration of the user-agent classifier: a layer that reads the
//! `User-Agent` header, optionally with overrides from a custom header.
//! The classification itself belongs to the user-agent parser that runs
//! the stack; here the layer records which override header it honours.
use vstd::prelude::*;
use crate::service::Layer;

verus! {

/// A service that classifies the user agent of each request before calling
/// its inner service.
#[derive(Clone, Debug)]
pub struct UserAgentClassifier<S> {
    pub inner: S,
    pub overwrite_header: Option<String>,
}

impl<S> UserAgentClassifier<S> {
    pub fn new(inner: S, overwrite_header: Option<String>) -> (r: UserAgentClassifier<S>)
        ensures
            r.inner == inner,
            r.overwrite_header == overwrite_header,
    {
        UserAgentClassifier { inner, overwrite_header }
    }
}

/// Layer that wraps a service in a `UserAgentClassifier`.
#[derive(Clone, Debug)]
pub struct UserAgentClassifierLayer {
    pub overwrite_header: Option<String>,
}

/// The header name, if any.
pub open spec fn header_view(h: Option<String>) -> Option<Seq<char>> {
    match h {
        Some(s) => Some(s@),
        None => None,
    }
}

impl UserAgentClassifierLayer {
    /// A layer with no override header.
    pub fn new() -> (r: UserAgentClassifierLayer)
        ensures
            r.overwrite_header is None,
    {
        UserAgentClassifierLayer { overwrite_header: None }
    }

    /// Lets `header` override parts of the classified user agent.
    pub fn overwrite_header(self, header: String) -> (r: UserAgentClassifierLayer)
        ensures
            r.overwrite_header == Some(header),
    {
        UserAgentClassifierLayer { overwrite_header: Some(header) }
    }

    /// Lets `header` override parts of the classified user agent.
    pub fn set_overwrite_header(&mut self, header: String) -> (r: &mut UserAgentClassifierLayer)
        ensures
            r.overwrite_header == Some(header),
    {
        self.overwrite_header = Some(header);
        self
    }
}

impl<S> Layer<S> for UserAgentClassifierLayer {
    type Service = UserAgentClassifier<S>;

    open spec fn may_layer(&self, inner: S, svc: UserAgentClassifier<S>) -> bool {
        svc.inner == inner && header_view(svc.overwrite_header) == header_view(self.overwrite_header)
    }

    fn layer(&self, inner: S) -> (r: UserAgentClassifier<S>) {
        let overwrite_header = match &self.overwrite_header {
            Some(h) => Some(h.clone()),
            None => None,
        };
        UserAgentClassifier::new(inner, overwrite_header)
    }
}

} // verus!
