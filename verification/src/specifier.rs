//! Specifiers and the construction protocol.
//!
//! A specifier is an immutable, cheaply copyable description of one endpoint
//! to construct: the process's console streams, a file to open for read and
//! write, or an already-open descriptor to adopt.  Constructing a specifier
//! yields a [`PeerConstructor`]: a one-shot (or, for listener-like
//! specifiers elsewhere in the system, repeating) producer of peers.  The
//! bounded OS action a construction needs — probing and switching console
//! modes, opening the file, adopting the descriptor — is described by an
//! [`EndpointRequest`] and performed by an unverified driver.

use vstd::prelude::*;

verus! {

/// Model of an endpoint-construction request: which OS resource the driver
/// is to turn into a peer.
pub enum SpecEndpointRequest {
    /// Use the process's inherited console input and output streams.
    ConsoleStreams,
    /// Open the file at this path (as raw bytes) for read and write; the
    /// file is not created if absent.
    FileByPath(Seq<u8>),
    /// Adopt this already-open descriptor number; its validity is the
    /// caller's responsibility.
    AdoptDescriptor(int),
}

/// An endpoint-construction request, handed to the unverified driver that
/// performs the one bounded OS action and wraps the resulting handle.
#[derive(Clone, Debug, PartialEq, Eq)]
pub enum EndpointRequest {
    ConsoleStreams,
    FileByPath(Vec<u8>),
    AdoptDescriptor(i32),
}

impl View for EndpointRequest {
    type V = SpecEndpointRequest;

    open spec fn view(&self) -> SpecEndpointRequest {
        match self {
            EndpointRequest::ConsoleStreams => SpecEndpointRequest::ConsoleStreams,
            EndpointRequest::FileByPath(p) => SpecEndpointRequest::FileByPath(p@),
            EndpointRequest::AdoptDescriptor(fd) => SpecEndpointRequest::AdoptDescriptor(
                *fd as int,
            ),
        }
    }
}

/// Model of a [`PeerConstructor`].
pub enum SpecPeerConstructor {
    ServeOnce(SpecEndpointRequest),
    ServeMultipleTimes(SpecEndpointRequest),
}

/// What a specifier's construction yields: either exactly one peer (the
/// constructor is then exhausted) or a never-ending sequence of peers, for
/// listener-like specifiers.  All specifiers in this crate serve once.
#[derive(Clone, Debug, PartialEq, Eq)]
pub enum PeerConstructor {
    ServeOnce(EndpointRequest),
    ServeMultipleTimes(EndpointRequest),
}

impl View for PeerConstructor {
    type V = SpecPeerConstructor;

    open spec fn view(&self) -> SpecPeerConstructor {
        match self {
            PeerConstructor::ServeOnce(r) => SpecPeerConstructor::ServeOnce(r@),
            PeerConstructor::ServeMultipleTimes(r) => SpecPeerConstructor::ServeMultipleTimes(
                r@,
            ),
        }
    }
}

/// Wrap one construction outcome as a one-shot constructor.
pub fn once(req: EndpointRequest) -> (r: PeerConstructor)
    ensures
        r@ == SpecPeerConstructor::ServeOnce(req@),
{
    PeerConstructor::ServeOnce(req)
}

/// One endpoint description.  Each implementation declares, as part of its
/// contract, which constructor its construction yields, whether it needs
/// the process-wide console lifecycle record, and whether it may be
/// constructed more than once per process.
pub trait Specifier {
    /// Model of the constructor this specifier's construction yields.
    spec fn spec_construct(&self) -> SpecPeerConstructor;

    /// Whether construction reads and mutates the process-wide record of
    /// console blocking-mode changes.  Only the console specifier does.
    spec fn spec_uses_global_state(&self) -> bool;

    /// Whether the specifier may serve only a single connection per
    /// process.  All three specifiers here are single-use.
    spec fn spec_is_single_connect(&self) -> bool;

    /// Produce this specifier's constructor.  Construction never blocks
    /// unboundedly: the request describes one bounded OS action.
    fn construct(&self) -> (r: PeerConstructor)
        ensures
            r@ == self.spec_construct(),
    ;

    /// Runtime form of [`Specifier::spec_uses_global_state`].
    fn uses_global_state(&self) -> (b: bool)
        ensures
            b == self.spec_uses_global_state(),
    ;

    /// Runtime form of [`Specifier::spec_is_single_connect`].
    fn is_single_connect(&self) -> (b: bool)
        ensures
            b == self.spec_is_single_connect(),
    ;
}

/// The console endpoint: the process's inherited standard input and output
/// streams, usable exactly once per process.
#[derive(Clone, Debug, PartialEq, Eq)]
pub struct Stdio;

impl Specifier for Stdio {
    open spec fn spec_construct(&self) -> SpecPeerConstructor {
        SpecPeerConstructor::ServeOnce(SpecEndpointRequest::ConsoleStreams)
    }

    open spec fn spec_uses_global_state(&self) -> bool {
        true
    }

    open spec fn spec_is_single_connect(&self) -> bool {
        true
    }

    fn construct(&self) -> (r: PeerConstructor) {
        once(EndpointRequest::ConsoleStreams)
    }

    fn uses_global_state(&self) -> (b: bool) {
        true
    }

    fn is_single_connect(&self) -> (b: bool) {
        true
    }
}

/// The file endpoint: open the file at the held path (raw bytes) for read
/// and write and use it as one duplex peer.  The file is not created if
/// absent.
#[derive(Clone, Debug, PartialEq, Eq)]
pub struct OpenAsync(pub Vec<u8>);

impl Specifier for OpenAsync {
    open spec fn spec_construct(&self) -> SpecPeerConstructor {
        SpecPeerConstructor::ServeOnce(SpecEndpointRequest::FileByPath(self.0@))
    }

    open spec fn spec_uses_global_state(&self) -> bool {
        false
    }

    open spec fn spec_is_single_connect(&self) -> bool {
        true
    }

    fn construct(&self) -> (r: PeerConstructor) {
        let path = self.0.clone();
        once(EndpointRequest::FileByPath(path))
    }

    fn uses_global_state(&self) -> (b: bool) {
        false
    }

    fn is_single_connect(&self) -> (b: bool) {
        true
    }
}

/// The descriptor endpoint: adopt an already-open descriptor number as one
/// duplex peer.  The descriptor's validity is entirely the caller's
/// responsibility; ownership transfers to the constructed peer.
#[derive(Clone, Debug, PartialEq, Eq)]
pub struct OpenFdAsync(pub i32);

impl Specifier for OpenFdAsync {
    open spec fn spec_construct(&self) -> SpecPeerConstructor {
        SpecPeerConstructor::ServeOnce(SpecEndpointRequest::AdoptDescriptor(self.0 as int))
    }

    open spec fn spec_uses_global_state(&self) -> bool {
        false
    }

    open spec fn spec_is_single_connect(&self) -> bool {
        true
    }

    fn construct(&self) -> (r: PeerConstructor) {
        once(EndpointRequest::AdoptDescriptor(self.0))
    }

    fn uses_global_state(&self) -> (b: bool) {
        false
    }

    fn is_single_connect(&self) -> (b: bool) {
        true
    }
}

} // verus!
