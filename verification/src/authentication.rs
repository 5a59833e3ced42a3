//! The authorization abstraction: the claim taken from a connection, the
//! decision returned to the acceptor, and the authenticator capability with
//! its delegate-to-forwarder implementation. The file-backed implementation
//! lives in [`file_based`].

use vstd::prelude::*;

pub mod file_based;

verus! {

/// Authentication claim taken from a connection before any payload:
/// either the SNI hostname or the raw Proxy-Authorization Basic payload.
///
/// Claims are stored owned, so a decision can be deferred to another
/// execution context (for example, re-asked through a forwarder) without a
/// further copy.
#[derive(Debug, Clone)]
pub enum Source {
    /// A client tries to authenticate using the SNI hostname it claimed.
    Sni(String),
    /// A client tries to authenticate using the Basic authentication scheme:
    /// the raw payload of a Proxy-Authorization header.
    ProxyBasic(String),
}

/// The mathematical value of a [`Source`]: the same tag over the claim text.
pub enum SourceView {
    Sni(Seq<char>),
    ProxyBasic(Seq<char>),
}

impl View for Source {
    type V = SourceView;

    open spec fn view(&self) -> SourceView {
        match self {
            Source::Sni(s) => SourceView::Sni(s@),
            Source::ProxyBasic(s) => SourceView::ProxyBasic(s@),
        }
    }
}

impl PartialEq for Source {
    fn eq(&self, other: &Source) -> (r: bool) {
        match (self, other) {
            (Source::Sni(a), Source::Sni(b)) => *a == *b,
            (Source::ProxyBasic(a), Source::ProxyBasic(b)) => *a == *b,
            _ => false,
        }
    }
}

impl vstd::std_specs::cmp::PartialEqSpecImpl for Source {
    open spec fn obeys_eq_spec() -> bool {
        true
    }

    open spec fn eq_spec(&self, other: &Source) -> bool {
        self@ == other@
    }
}

impl Source {
    /// Claims are stored owned, so the owned form of a claim is the claim
    /// itself; the conversion is kept as the explicit operation demanded at
    /// every boundary that defers a decision.
    pub fn into_owned(self) -> (r: Source)
        ensures
            r == self,
    {
        self
    }
}

/// Outcome of an authentication attempt. Terminal for the connection except
/// [`Status::TryThroughForwarder`], which directs the caller to re-ask an
/// external forwarding authority.
#[derive(Debug, Clone)]
pub enum Status {
    /// Success.
    Pass,
    /// Failure, deliberately undifferentiated: a missing store, a bad
    /// username, a bad password and an expired record are indistinguishable.
    Reject,
    /// The decision should be re-evaluated through a forwarder, with the
    /// carried claim.
    TryThroughForwarder(Source),
}

impl PartialEq for Status {
    fn eq(&self, other: &Status) -> (r: bool) {
        match (self, other) {
            (Status::Pass, Status::Pass) => true,
            (Status::Reject, Status::Reject) => true,
            (Status::TryThroughForwarder(a), Status::TryThroughForwarder(b)) => a == b,
            _ => false,
        }
    }
}

impl vstd::std_specs::cmp::PartialEqSpecImpl for Status {
    open spec fn obeys_eq_spec() -> bool {
        true
    }

    open spec fn eq_spec(&self, other: &Status) -> bool {
        match (self, other) {
            (Status::Pass, Status::Pass) => true,
            (Status::Reject, Status::Reject) => true,
            (Status::TryThroughForwarder(a), Status::TryThroughForwarder(b)) => a@ == b@,
            _ => false,
        }
    }
}

/// The authenticator abstract interface: one decision per claim, consulted
/// by the connection acceptor before the tunnel orchestrator runs.
pub trait Authenticator {
    /// Authenticate a client claim.
    fn authenticate(&self, source: Source) -> Status;
}

/// The [`Authenticator`] implementation which always delegates the decision
/// to an external forwarding authority. It performs no comparison itself.
pub struct RedirectToForwarderAuthenticator {}

impl Default for RedirectToForwarderAuthenticator {
    fn default() -> (r: Self)
        ensures
            r == (RedirectToForwarderAuthenticator {  }),
    {
        RedirectToForwarderAuthenticator {  }
    }
}

impl Authenticator for RedirectToForwarderAuthenticator {
    /// Always returns [`Status::TryThroughForwarder`] carrying the claim it
    /// was given, unchanged.
    fn authenticate(&self, source: Source) -> (r: Status)
        ensures
            r == Status::TryThroughForwarder(source),
    {
        Status::TryThroughForwarder(source.into_owned())
    }
}

} // verus!
