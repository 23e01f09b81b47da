//! Services, layers that wrap them, and stacks of layers.
use vstd::prelude::*;
use crate::context::Context;

verus! {

/// A unit of request processing: given a context and a request, it produces
/// a response or an error.
pub trait Service<State, Request> {
    type Response;

    type Error;

    /// Whether serving `req` in `ctx` may end in `r`.
    spec fn may_serve(
        &self,
        ctx: Context<State>,
        req: Request,
        r: Result<Self::Response, Self::Error>,
    ) -> bool;

    fn serve(&self, ctx: Context<State>, req: Request) -> (r: Result<Self::Response, Self::Error>)
        ensures
            self.may_serve(ctx, req, r),
    ;
}

/// Configuration that wraps an inner service into a new one.
pub trait Layer<S> {
    type Service;

    /// Whether `svc` is a service that wrapping `inner` may give.
    spec fn may_layer(&self, inner: S, svc: Self::Service) -> bool;

    fn layer(&self, inner: S) -> (r: Self::Service)
        ensures
            self.may_layer(inner, r),
    ;
}

/// The layer that leaves a service as it is.
#[derive(Clone, Copy, Debug, PartialEq, Eq)]
pub struct Identity;

impl<S> Layer<S> for Identity {
    type Service = S;

    open spec fn may_layer(&self, inner: S, svc: S) -> bool {
        svc == inner
    }

    fn layer(&self, inner: S) -> (r: S) {
        inner
    }
}

/// Two layers in one: `inner` wraps the service first, `outer` wraps the result.
#[derive(Clone, Copy, Debug, PartialEq, Eq)]
pub struct Stack<Inner, Outer> {
    pub inner: Inner,
    pub outer: Outer,
}

impl<Inner, Outer> Stack<Inner, Outer> {
    pub fn new(inner: Inner, outer: Outer) -> (r: Stack<Inner, Outer>)
        ensures
            r == (Stack { inner, outer }),
    {
        Stack { inner, outer }
    }
}

impl<S, M, Inner: Layer<S, Service = M>, Outer: Layer<M>> Layer<S> for Stack<Inner, Outer> {
    type Service = Outer::Service;

    open spec fn may_layer(&self, s: S, svc: Outer::Service) -> bool {
        exists|m: M| #[trigger] self.inner.may_layer(s, m) && self.outer.may_layer(m, svc)
    }

    fn layer(&self, s: S) -> (r: Outer::Service) {
        let m = self.inner.layer(s);
        self.outer.layer(m)
    }
}

/// Stacking is associative: grouping `c` under `b` and then `a`, or `c` under
/// the group of `b` and `a`, yields the same services from the same inner one.
pub proof fn lemma_stack_associative<S, MC, MB, A, B, C>(a: A, b: B, c: C, s: S, svc: A::Service) where
    C: Layer<S, Service = MC>,
    B: Layer<MC, Service = MB>,
    A: Layer<MB>,

    ensures
        (Stack { inner: Stack { inner: c, outer: b }, outer: a }).may_layer(s, svc) <==> (Stack {
            inner: c,
            outer: Stack { inner: b, outer: a },
        }).may_layer(s, svc),
{
    let left = Stack { inner: Stack { inner: c, outer: b }, outer: a };
    let right = Stack { inner: c, outer: Stack { inner: b, outer: a } };
    if left.may_layer(s, svc) {
        let m1 = choose|m1: MB| #[trigger] left.inner.may_layer(s, m1) && a.may_layer(m1, svc);
        let m2 = choose|m2: MC| #[trigger] c.may_layer(s, m2) && b.may_layer(m2, m1);
        assert(right.outer.inner.may_layer(m2, m1) && right.outer.outer.may_layer(m1, svc));
        assert(right.outer.may_layer(m2, svc));
        assert(right.inner.may_layer(s, m2));
        assert(right.may_layer(s, svc));
    }
    if right.may_layer(s, svc) {
        let m2 = choose|m2: MC| #[trigger] c.may_layer(s, m2) && right.outer.may_layer(m2, svc);
        let m1 = choose|m1: MB| #[trigger] b.may_layer(m2, m1) && a.may_layer(m1, svc);
        assert(left.inner.inner.may_layer(s, m2) && left.inner.outer.may_layer(m2, m1));
        assert(left.inner.may_layer(s, m1));
        assert(left.outer.may_layer(m1, svc));
        assert(left.may_layer(s, svc));
    }
}

/// Stacking on the identity changes nothing.
pub proof fn lemma_stack_identity<S, MA, A: Layer<S, Service = MA>>(a: A, s: S, svc: MA)
    ensures
        (Stack { inner: a, outer: Identity }).may_layer(s, svc) <==> a.may_layer(s, svc),
        (Stack { inner: Identity, outer: a }).may_layer(s, svc) <==> a.may_layer(s, svc),
{
    let l = Stack { inner: Identity, outer: a };
    let r = Stack { inner: a, outer: Identity };
    if a.may_layer(s, svc) {
        assert(l.inner.may_layer(s, s));
        assert(r.inner.may_layer(s, svc) && r.outer.may_layer(svc, svc));
    }
}

/// Builds a stack of layers, the first added outermost.
#[derive(Clone, Copy, Debug, PartialEq, Eq)]
pub struct ServiceBuilder<L> {
    pub layer: L,
}

impl ServiceBuilder<Identity> {
    pub fn new() -> (r: ServiceBuilder<Identity>)
        ensures
            r.layer == Identity,
    {
        ServiceBuilder { layer: Identity }
    }
}

impl<L> ServiceBuilder<L> {
    /// Adds `layer` inside the layers added so far.
    pub fn layer<T>(self, layer: T) -> (r: ServiceBuilder<Stack<T, L>>)
        ensures
            r.layer == (Stack { inner: layer, outer: self.layer }),
    {
        ServiceBuilder { layer: Stack { inner: layer, outer: self.layer } }
    }

    /// Wraps `s` in every layer added so far.
    pub fn service<S>(&self, s: S) -> (r: L::Service) where L: Layer<S>
        ensures
            self.layer.may_layer(s, r),
    {
        self.layer.layer(s)
    }

    pub fn into_inner(self) -> (r: L)
        ensures
            r == self.layer,
    {
        self.layer
    }
}

} // verus!
