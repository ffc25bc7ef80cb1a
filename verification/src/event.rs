//! The events that state handlers produce, the failures that they report and
//! the notifications that the loop publishes.

use crate::round::{
    DhtNetworkDiscoveryRoundInfo, DiscoveryParams, DiscoveryParamsView, RoundInfoView,
};
use crate::text::{enclosed, prefixed};
use vstd::prelude::*;
use vstd::std_specs::convert::FromSpecImpl;

verus! {

/// The kinds of failure that discovery distinguishes.
#[derive(Debug, Clone, Copy, PartialEq, Eq, Structural)]
pub enum FailureKind {
    /// A startup precondition was not met.
    Initialization,
    /// A discovery round as a whole could not proceed.
    Round,
    /// Any other failure that a collaborator surfaced.
    Subsystem,
}

impl FailureKind {
    /// The words that introduce a failure of this kind.
    pub open spec fn label(self) -> Seq<char> {
        match self {
            FailureKind::Initialization => "Initialization failed: "@,
            FailureKind::Round => "Discovery round failed: "@,
            FailureKind::Subsystem => "Discovery error: "@,
        }
    }
}

/// The mathematical content of a `NetworkDiscoveryError`.
pub struct NetworkDiscoveryErrorView {
    pub kind: FailureKind,
    pub detail: Seq<char>,
}

impl NetworkDiscoveryErrorView {
    /// How the failure reads in a log line.
    pub open spec fn text(self) -> Seq<char> {
        self.kind.label() + self.detail
    }
}

/// A failure of discovery: its kind, and what the failing part said.
///
/// A failure to contact or sync with a single peer is no such failure: a
/// round counts it in its statistics.
#[derive(Debug, PartialEq, Eq)]
pub struct NetworkDiscoveryError {
    pub kind: FailureKind,
    pub detail: String,
}

impl View for NetworkDiscoveryError {
    type V = NetworkDiscoveryErrorView;

    open spec fn view(&self) -> NetworkDiscoveryErrorView {
        NetworkDiscoveryErrorView { kind: self.kind, detail: self.detail@ }
    }
}

impl NetworkDiscoveryError {
    /// A failure of the given kind.
    pub fn new(kind: FailureKind, detail: String) -> (error: NetworkDiscoveryError)
        ensures
            error@ == (NetworkDiscoveryErrorView { kind, detail: detail@ }),
    {
        NetworkDiscoveryError { kind, detail }
    }

    /// Renders the failure for a log line.
    pub fn to_string(&self) -> (text: String)
        ensures
            text@ == self@.text(),
    {
        match self.kind {
            FailureKind::Initialization => prefixed(
                "Initialization failed: ",
                self.detail.as_str(),
            ),
            FailureKind::Round => prefixed("Discovery round failed: ", self.detail.as_str()),
            FailureKind::Subsystem => prefixed("Discovery error: ", self.detail.as_str()),
        }
    }
}

/// The mathematical content of a `StateEvent`.
pub enum StateEventView {
    Initialized,
    BeginDiscovery(DiscoveryParamsView),
    Ready,
    Idle,
    DiscoveryComplete(RoundInfoView),
    Errored(NetworkDiscoveryErrorView),
    Shutdown,
}

impl StateEventView {
    /// How the event reads in a log line.
    pub open spec fn text(self) -> Seq<char> {
        match self {
            StateEventView::Initialized => "Initialized"@,
            StateEventView::BeginDiscovery(params) => "BeginDiscovery("@ + params.text() + ")"@,
            StateEventView::Ready => "Ready"@,
            StateEventView::Idle => "Idle"@,
            StateEventView::DiscoveryComplete(stats) => "DiscoveryComplete("@ + stats.text() + ")"@,
            StateEventView::Errored(err) => "Errored("@ + err.text() + ")"@,
            StateEventView::Shutdown => "Shutdown"@,
        }
    }
}

/// What a state handler reports when its work is done. Each turn of the loop
/// consumes exactly one.
#[derive(Debug, PartialEq, Eq)]
pub enum StateEvent {
    Initialized,
    BeginDiscovery(DiscoveryParams),
    Ready,
    Idle,
    DiscoveryComplete(DhtNetworkDiscoveryRoundInfo),
    Errored(NetworkDiscoveryError),
    Shutdown,
}

impl View for StateEvent {
    type V = StateEventView;

    open spec fn view(&self) -> StateEventView {
        match self {
            StateEvent::Initialized => StateEventView::Initialized,
            StateEvent::BeginDiscovery(params) => StateEventView::BeginDiscovery(params@),
            StateEvent::Ready => StateEventView::Ready,
            StateEvent::Idle => StateEventView::Idle,
            StateEvent::DiscoveryComplete(stats) => StateEventView::DiscoveryComplete(stats@),
            StateEvent::Errored(err) => StateEventView::Errored(err@),
            StateEvent::Shutdown => StateEventView::Shutdown,
        }
    }
}

impl From<NetworkDiscoveryError> for StateEvent {
    /// A failure is reported as `Errored`.
    fn from(err: NetworkDiscoveryError) -> (event: StateEvent) {
        StateEvent::Errored(err)
    }
}

impl FromSpecImpl<NetworkDiscoveryError> for StateEvent {
    open spec fn obeys_from_spec() -> bool {
        true
    }

    open spec fn from_spec(err: NetworkDiscoveryError) -> StateEvent {
        StateEvent::Errored(err)
    }
}

impl StateEvent {
    /// The event of the initializing state: `Initialized` when startup
    /// validation passed, `Errored` with the failure when it did not.
    pub fn initialized(outcome: Result<(), NetworkDiscoveryError>) -> (event: StateEvent)
        ensures
            match outcome {
                Ok(_) => event@ == StateEventView::Initialized,
                Err(err) => event@ == StateEventView::Errored(err@),
            },
    {
        match outcome {
            Ok(_) => StateEvent::Initialized,
            Err(err) => StateEvent::Errored(err),
        }
    }

    /// The event of the idle state: `BeginDiscovery` with the parameters
    /// where a round is due, `Idle` where none is, `Errored` where the
    /// decision failed.
    pub fn decided(outcome: Result<Option<DiscoveryParams>, NetworkDiscoveryError>) -> (event:
        StateEvent)
        ensures
            match outcome {
                Ok(Some(params)) => event@ == StateEventView::BeginDiscovery(params@),
                Ok(None) => event@ == StateEventView::Idle,
                Err(err) => event@ == StateEventView::Errored(err@),
            },
    {
        match outcome {
            Ok(Some(params)) => StateEvent::BeginDiscovery(params),
            Ok(None) => StateEvent::Idle,
            Err(err) => StateEvent::Errored(err),
        }
    }

    /// The event of the discovering state: `DiscoveryComplete` with the
    /// statistics of the round, `Errored` where the round as a whole failed.
    pub fn discovered(outcome: Result<DhtNetworkDiscoveryRoundInfo, NetworkDiscoveryError>) -> (event:
        StateEvent)
        ensures
            match outcome {
                Ok(stats) => event@ == StateEventView::DiscoveryComplete(stats@),
                Err(err) => event@ == StateEventView::Errored(err@),
            },
    {
        match outcome {
            Ok(stats) => StateEvent::DiscoveryComplete(stats),
            Err(err) => StateEvent::Errored(err),
        }
    }

    /// Renders the event for a log line.
    pub fn to_string(&self) -> (text: String)
        ensures
            text@ == self@.text(),
    {
        match self {
            StateEvent::Initialized => String::from_str("Initialized"),
            StateEvent::BeginDiscovery(params) => enclosed(
                "BeginDiscovery(",
                params.to_string().as_str(),
            ),
            StateEvent::Ready => String::from_str("Ready"),
            StateEvent::Idle => String::from_str("Idle"),
            StateEvent::DiscoveryComplete(stats) => enclosed(
                "DiscoveryComplete(",
                stats.to_string().as_str(),
            ),
            StateEvent::Errored(err) => enclosed("Errored(", err.to_string().as_str()),
            StateEvent::Shutdown => String::from_str("Shutdown"),
        }
    }
}

/// The mathematical content of a `DhtEvent`.
pub enum DhtEventView {
    NetworkDiscoveryPeersAdded(RoundInfoView),
}

/// What the loop tells its subscribers.
#[derive(Debug, PartialEq, Eq)]
pub enum DhtEvent {
    /// A round added peers; it carries the statistics of that round.
    NetworkDiscoveryPeersAdded(DhtNetworkDiscoveryRoundInfo),
}

impl View for DhtEvent {
    type V = DhtEventView;

    open spec fn view(&self) -> DhtEventView {
        match self {
            DhtEvent::NetworkDiscoveryPeersAdded(stats) => DhtEventView::NetworkDiscoveryPeersAdded(
                stats@,
            ),
        }
    }
}

} // verus!
