//! The states of the discovery loop and what each of them holds.

use crate::text::enclosed;
use crate::round::{
    DhtNetworkDiscoveryRoundInfo, DiscoveryParams, DiscoveryParamsView, RoundInfoView,
};
use std::time::Duration;
use vstd::prelude::*;
use vstd::std_specs::convert::FromSpecImpl;

verus! {

/// What the idle state holds: the statistics of the round that led to it, if
/// one did.
#[derive(Debug, PartialEq, Eq)]
pub struct DiscoveryReady {
    pub last_discovery: Option<DhtNetworkDiscoveryRoundInfo>,
}

impl DiscoveryReady {
    /// The idle state that no round led to.
    pub fn initial() -> (ready: DiscoveryReady)
        ensures
            ready.last_discovery is None,
    {
        DiscoveryReady { last_discovery: None }
    }

    /// The idle state after the round with the given statistics.
    pub fn new(last_discovery: DhtNetworkDiscoveryRoundInfo) -> (ready: DiscoveryReady)
        ensures
            ready.last_discovery == Some(last_discovery),
    {
        DiscoveryReady { last_discovery: Some(last_discovery) }
    }
}

/// What the discovering state holds: the parameters of the round it runs.
#[derive(Debug, PartialEq, Eq)]
pub struct Discovering {
    pub params: DiscoveryParams,
}

impl Discovering {
    /// The state that runs a round with the given parameters.
    pub fn new(params: DiscoveryParams) -> (discovering: Discovering)
        ensures
            discovering.params == params,
    {
        Discovering { params }
    }
}

/// What the waiting state holds: how long to wait.
#[derive(Debug, Clone, Copy, PartialEq, Eq)]
pub struct Waiting {
    pub duration: Duration,
}

impl Waiting {
    /// How long this state waits.
    pub fn duration(&self) -> (duration: Duration)
        ensures
            duration == self.duration,
    {
        self.duration
    }
}

impl From<Duration> for Waiting {
    /// The state that waits for `duration`.
    fn from(duration: Duration) -> (waiting: Waiting) {
        Waiting { duration }
    }
}

impl FromSpecImpl<Duration> for Waiting {
    open spec fn obeys_from_spec() -> bool {
        true
    }

    open spec fn from_spec(duration: Duration) -> Waiting {
        Waiting { duration }
    }
}

/// The text of a duration in whole units: what the debug format of
/// `std::time::Duration` prints at precision 0.
pub uninterp spec fn duration_text(duration: Duration) -> Seq<char>;

/// Formats `duration` with `{:.0?}`, the debug format of
/// `std::time::Duration` at precision 0. The contract only names the text:
/// it is a function of the duration alone.
#[verifier::external_body]
fn format_duration(duration: Duration) -> (text: String)
    ensures
        text@ == duration_text(duration),
{
    format!("{:.0?}", duration)
}

/// The mathematical content of a `State`.
pub enum StateView {
    Initializing,
    Ready(Option<RoundInfoView>),
    Discovering(DiscoveryParamsView),
    Waiting(Duration),
    Shutdown,
}

impl StateView {
    /// Whether this is the terminal state.
    pub open spec fn is_shutdown(self) -> bool {
        self is Shutdown
    }

    /// How the state reads in a log line.
    pub open spec fn text(self) -> Seq<char> {
        match self {
            StateView::Initializing => "Initializing"@,
            StateView::Ready(_) => "Ready"@,
            StateView::Discovering(_) => "Discovering"@,
            StateView::Waiting(duration) => "Waiting("@ + duration_text(duration) + ")"@,
            StateView::Shutdown => "Shutdown"@,
        }
    }
}

/// The state of the discovery loop. The loop starts in `Initializing` and
/// ends in `Shutdown`.
#[derive(Debug, PartialEq, Eq)]
pub enum State {
    Initializing,
    Ready(DiscoveryReady),
    Discovering(Discovering),
    Waiting(Waiting),
    Shutdown,
}

impl View for State {
    type V = StateView;

    open spec fn view(&self) -> StateView {
        match self {
            State::Initializing => StateView::Initializing,
            State::Ready(ready) => StateView::Ready(
                match ready.last_discovery {
                    Some(stats) => Some(stats@),
                    None => None,
                },
            ),
            State::Discovering(discovering) => StateView::Discovering(discovering.params@),
            State::Waiting(waiting) => StateView::Waiting(waiting.duration),
            State::Shutdown => StateView::Shutdown,
        }
    }
}

impl State {
    /// Whether this is the terminal state.
    pub fn is_shutdown(&self) -> (yes: bool)
        ensures
            yes == (*self is Shutdown),
            yes == self@.is_shutdown(),
    {
        match self {
            State::Shutdown => true,
            _ => false,
        }
    }

    /// Renders the state for a log line.
    pub fn to_string(&self) -> (text: String)
        ensures
            text@ == self@.text(),
    {
        match self {
            State::Initializing => String::from_str("Initializing"),
            State::Ready(_) => String::from_str("Ready"),
            State::Discovering(_) => String::from_str("Discovering"),
            State::Waiting(waiting) => enclosed(
                "Waiting(",
                format_duration(waiting.duration()).as_str(),
            ),
            State::Shutdown => String::from_str("Shutdown"),
        }
    }
}

} // verus!
