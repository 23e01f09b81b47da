//! The per-request context: shared state plus a map of extensions, holding
//! at most one value of each kind.
use vstd::prelude::*;
use crate::net::{IpAddr, SocketAddr};
use std::sync::Arc;

verus! {

/// What is known of the TCP connection a request arrived on.
#[derive(Clone, Copy, Debug, PartialEq, Eq)]
pub struct SocketInfo {
    pub local_addr: Option<SocketAddr>,
    pub peer_addr: SocketAddr,
}

impl SocketInfo {
    pub fn new(local_addr: Option<SocketAddr>, peer_addr: SocketAddr) -> (r: SocketInfo)
        ensures
            r == (SocketInfo { local_addr, peer_addr }),
    {
        SocketInfo { local_addr, peer_addr }
    }

    pub fn peer_addr(&self) -> (r: &SocketAddr)
        ensures
            *r == self.peer_addr,
    {
        &self.peer_addr
    }
}

/// A node of a `Forwarded` element: an address and a port, either of which
/// may be unknown or obfuscated.
#[derive(Clone, Copy, Debug, PartialEq, Eq)]
pub struct NodeId {
    pub ip: Option<IpAddr>,
    pub port: Option<u16>,
}

impl NodeId {
    /// A node known by address and port.
    pub fn from_socket_addr(addr: SocketAddr) -> (r: NodeId)
        ensures
            r == (NodeId { ip: Some(addr.ip), port: Some(addr.port) }),
    {
        NodeId { ip: Some(addr.ip), port: Some(addr.port) }
    }

    /// A node known by address alone.
    pub fn from_ip(ip: IpAddr) -> (r: NodeId)
        ensures
            r == (NodeId { ip: Some(ip), port: None::<u16> }),
    {
        NodeId { ip: Some(ip), port: None }
    }
}

/// One hop of a `Forwarded` header.
#[derive(Clone, Copy, Debug, PartialEq, Eq)]
pub struct ForwardedElement {
    pub for_node: Option<NodeId>,
}

impl ForwardedElement {
    /// An element naming the node that the request was made for.
    pub fn forwarded_for(node: NodeId) -> (r: ForwardedElement)
        ensures
            r == (ForwardedElement { for_node: Some(node) }),
    {
        ForwardedElement { for_node: Some(node) }
    }
}

/// What an upstream proxy reported of the client it relays for.
#[derive(Clone, Copy, Debug, PartialEq, Eq)]
pub struct Forwarded {
    pub first: ForwardedElement,
}

/// The client's socket address: the first element's `for` node, when it
/// names both an address and a port.
pub open spec fn spec_client_socket_addr(f: Forwarded) -> Option<SocketAddr> {
    match f.first.for_node {
        Some(NodeId { ip: Some(ip), port: Some(port) }) => Some(SocketAddr { ip, port }),
        _ => None,
    }
}

impl Forwarded {
    pub fn new(first: ForwardedElement) -> (r: Forwarded)
        ensures
            r == (Forwarded { first }),
    {
        Forwarded { first }
    }

    pub fn client_socket_addr(&self) -> (r: Option<SocketAddr>)
        ensures
            r == spec_client_socket_addr(*self),
    {
        match self.first.for_node {
            Some(NodeId { ip: Some(ip), port: Some(port) }) => Some(SocketAddr { ip, port }),
            _ => None,
        }
    }
}

/// The kinds of value an extension map can hold.
#[derive(Clone, Copy, Debug, PartialEq, Eq)]
pub enum ExtensionKind {
    SocketInfo,
    Forwarded,
}

/// A value held in an extension map.
#[derive(Clone, Copy, Debug, PartialEq, Eq)]
pub enum Extension {
    SocketInfo(SocketInfo),
    Forwarded(Forwarded),
}

pub open spec fn kind_of(e: Extension) -> ExtensionKind {
    match e {
        Extension::SocketInfo(_) => ExtensionKind::SocketInfo,
        Extension::Forwarded(_) => ExtensionKind::Forwarded,
    }
}

/// A map from kind to a value of that kind: one slot per kind.
#[derive(Clone, Copy, Debug, PartialEq, Eq)]
pub struct Extensions {
    pub socket_info: Option<SocketInfo>,
    pub forwarded: Option<Forwarded>,
}

impl View for Extensions {
    type V = Map<ExtensionKind, Extension>;

    open spec fn view(&self) -> Map<ExtensionKind, Extension> {
        Map::new(
            |k: ExtensionKind|
                match k {
                    ExtensionKind::SocketInfo => self.socket_info is Some,
                    ExtensionKind::Forwarded => self.forwarded is Some,
                },
            |k: ExtensionKind|
                match k {
                    ExtensionKind::SocketInfo => Extension::SocketInfo(self.socket_info->Some_0),
                    ExtensionKind::Forwarded => Extension::Forwarded(self.forwarded->Some_0),
                },
        )
    }
}

/// Every value is stored under its own kind.
pub proof fn lemma_extensions_keyed_by_kind(e: Extensions, k: ExtensionKind)
    requires
        e@.contains_key(k),
    ensures
        kind_of(e@[k]) == k,
{
}

/// `e` with `x` stored in the slot of its kind.
pub open spec fn inserted(e: Extensions, x: Extension) -> Extensions {
    match x {
        Extension::SocketInfo(v) => Extensions { socket_info: Some(v), ..e },
        Extension::Forwarded(v) => Extensions { forwarded: Some(v), ..e },
    }
}

impl Extensions {
    pub fn new() -> (r: Extensions)
        ensures
            r@ == Map::<ExtensionKind, Extension>::empty(),
    {
        let r = Extensions { socket_info: None, forwarded: None };
        assert forall|k: ExtensionKind| !#[trigger] r@.contains_key(k) by {
            match k {
                ExtensionKind::SocketInfo => {},
                ExtensionKind::Forwarded => {},
            }
        }
        assert(r@ =~= Map::<ExtensionKind, Extension>::empty());
        r
    }

    /// Stores `e`, replacing any value of the same kind.
    pub fn insert(&mut self, e: Extension)
        ensures
            *final(self) == inserted(*old(self), e),
            final(self)@ == old(self)@.insert(kind_of(e), e),
    {
        match e {
            Extension::SocketInfo(v) => self.socket_info = Some(v),
            Extension::Forwarded(v) => self.forwarded = Some(v),
        }
        assert(final(self)@ =~= old(self)@.insert(kind_of(e), e));
    }

    /// The value of kind `k`, if any.
    pub fn get(&self, k: ExtensionKind) -> (r: Option<Extension>)
        ensures
            r == (if self@.contains_key(k) {
                Some(self@[k])
            } else {
                None
            }),
    {
        match k {
            ExtensionKind::SocketInfo => match self.socket_info {
                Some(v) => Some(Extension::SocketInfo(v)),
                None => None,
            },
            ExtensionKind::Forwarded => match self.forwarded {
                Some(v) => Some(Extension::Forwarded(v)),
                None => None,
            },
        }
    }

    /// Takes out the value of kind `k`, if any.
    pub fn remove(&mut self, k: ExtensionKind) -> (r: Option<Extension>)
        ensures
            final(self)@ == old(self)@.remove(k),
            r == (if old(self)@.contains_key(k) {
                Some(old(self)@[k])
            } else {
                None
            }),
    {
        let r = self.get(k);
        match k {
            ExtensionKind::SocketInfo => self.socket_info = None,
            ExtensionKind::Forwarded => self.forwarded = None,
        }
        assert(final(self)@ =~= old(self)@.remove(k));
        r
    }
}

/// The source address a request is announced from: the client of a
/// `Forwarded` extension that names one, else the peer of the `SocketInfo`.
pub open spec fn spec_source_addr(e: Extensions) -> Option<SocketAddr> {
    match e.forwarded {
        Some(f) if spec_client_socket_addr(f) is Some => spec_client_socket_addr(f),
        _ => match e.socket_info {
            Some(info) => Some(info.peer_addr),
            None => None,
        },
    }
}

pub fn source_addr(e: &Extensions) -> (r: Option<SocketAddr>)
    ensures
        r == spec_source_addr(*e),
{
    if let Some(f) = &e.forwarded {
        if let Some(a) = f.client_socket_addr() {
            return Some(a);
        }
    }
    match &e.socket_info {
        Some(info) => Some(*info.peer_addr()),
        None => None,
    }
}

/// Where a `Forwarded` extension names a client, that client is the source,
/// whatever `SocketInfo` holds.
pub proof fn lemma_forwarded_wins(e: Extensions, f: Forwarded, a: SocketAddr)
    requires
        e@.contains_key(ExtensionKind::Forwarded),
        e@[ExtensionKind::Forwarded] == Extension::Forwarded(f),
        spec_client_socket_addr(f) == Some(a),
    ensures
        spec_source_addr(e) == Some(a),
{
}

/// A request's context: shared state and extensions.
#[derive(Debug)]
pub struct Context<State> {
    pub state: Arc<State>,
    pub extensions: Extensions,
}

impl<State> Context<State> {
    /// A context over `state`, with no extensions.
    pub fn new(state: State) -> (r: Context<State>)
        ensures
            *r.state == state,
            r.extensions@ == Map::<ExtensionKind, Extension>::empty(),
    {
        Context { state: Arc::new(state), extensions: Extensions::new() }
    }

    pub fn state(&self) -> (r: &State)
        ensures
            *r == *self.state,
    {
        &self.state
    }

    /// Stores `e`, replacing any extension of the same kind.
    pub fn insert(&mut self, e: Extension)
        ensures
            final(self).state == old(self).state,
            final(self).extensions == inserted(old(self).extensions, e),
            final(self).extensions@ == old(self).extensions@.insert(kind_of(e), e),
    {
        self.extensions.insert(e);
    }

    /// The extension of kind `k`, if any.
    pub fn get(&self, k: ExtensionKind) -> (r: Option<Extension>)
        ensures
            r == (if self.extensions@.contains_key(k) {
                Some(self.extensions@[k])
            } else {
                None
            }),
    {
        self.extensions.get(k)
    }

    /// Takes out the extension of kind `k`, if any.
    pub fn remove(&mut self, k: ExtensionKind) -> (r: Option<Extension>)
        ensures
            final(self).state == old(self).state,
            final(self).extensions@ == old(self).extensions@.remove(k),
            r == (if old(self).extensions@.contains_key(k) {
                Some(old(self).extensions@[k])
            } else {
                None
            }),
    {
        self.extensions.remove(k)
    }
}

impl<State: Clone> Clone for Context<State> {
    fn clone(&self) -> (r: Context<State>)
        ensures
            r == *self,
    {
        Context { state: self.state.clone(), extensions: self.extensions }
    }
}

} // verus!
