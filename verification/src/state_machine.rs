//! The transition table of the discovery loop and the decisions of its driver.
//!
//! The driver that owns the loop does the waiting: it runs the work of the
//! active state, races it against the shutdown signal, and hands the outcome
//! to `DhtNetworkDiscovery::step`, which answers with the next state and with
//! the notification to publish, if any.

use crate::config::{DhtConfig, NetworkDiscoveryConfig};
use crate::context::NetworkDiscoveryContext;
use crate::event::{DhtEvent, DhtEventView, StateEvent, StateEventView};
use crate::state::{Discovering, DiscoveryReady, State, StateView, Waiting};
use vstd::prelude::*;

verus! {

/// The transition table. The first row that matches decides; a pair that no
/// row matches leaves the state as it is.
///
/// | state        | event                     | next state                         |
/// |--------------|---------------------------|------------------------------------|
/// | Initializing | Initialized               | Ready, fresh                       |
/// | any          | Ready                     | Ready, fresh                       |
/// | Ready        | BeginDiscovery(params)    | Discovering(params)                |
/// | Discovering  | DiscoveryComplete(stats)  | Ready with stats if the round succeeded, else Waiting(failure idle period) |
/// | Ready        | Idle                      | Waiting(idle period)               |
/// | any          | Shutdown                  | Shutdown                           |
/// | any          | Errored(err)              | Waiting(failure idle period)       |
pub open spec fn next_state(
    config: NetworkDiscoveryConfig,
    state: StateView,
    event: StateEventView,
) -> StateView {
    match (state, event) {
        (StateView::Initializing, StateEventView::Initialized) => StateView::Ready(None),
        (_, StateEventView::Ready) => StateView::Ready(None),
        (StateView::Ready(_), StateEventView::BeginDiscovery(params)) => StateView::Discovering(
            params,
        ),
        (StateView::Discovering(_), StateEventView::DiscoveryComplete(stats)) => {
            if stats.is_success() {
                StateView::Ready(Some(stats))
            } else {
                StateView::Waiting(config.on_failure_idle_period)
            }
        },
        (StateView::Ready(_), StateEventView::Idle) => StateView::Waiting(config.idle_period),
        (_, StateEventView::Shutdown) => StateView::Shutdown,
        (_, StateEventView::Errored(_)) => StateView::Waiting(config.on_failure_idle_period),
        (unmatched, _) => unmatched,
    }
}

/// The notification that a transition publishes: "peers added", with the
/// statistics of the round, when a round that added peers completes in the
/// discovering state, and nothing otherwise.
pub open spec fn published(state: StateView, event: StateEventView) -> Option<DhtEventView> {
    match (state, event) {
        (StateView::Discovering(_), StateEventView::DiscoveryComplete(stats)) => {
            if stats.has_new_peers() {
                Some(DhtEventView::NetworkDiscoveryPeersAdded(stats))
            } else {
                None
            }
        },
        _ => None,
    }
}

/// The event that a turn of the loop applies: `Shutdown` once the loop is in
/// its terminal state or when the shutdown signal won the race (`raced` is
/// `None`), and else the event that the active state's handler produced.
pub open spec fn applied_event(state: StateView, raced: Option<StateEventView>) -> StateEventView {
    if state.is_shutdown() {
        StateEventView::Shutdown
    } else {
        match raced {
            Some(event) => event,
            None => StateEventView::Shutdown,
        }
    }
}

/// The state after one turn of the loop.
pub open spec fn turn(
    config: NetworkDiscoveryConfig,
    state: StateView,
    raced: Option<StateEventView>,
) -> StateView {
    next_state(config, state, applied_event(state, raced))
}

/// The view of an optional notification.
pub open spec fn notification_view(notification: Option<DhtEvent>) -> Option<DhtEventView> {
    match notification {
        Some(event) => Some(event@),
        None => None,
    }
}

/// The view of the outcome of a race between a handler and the shutdown
/// signal.
pub open spec fn raced_view(raced: Option<StateEvent>) -> Option<StateEventView> {
    match raced {
        Some(event) => Some(event@),
        None => None,
    }
}

/// What a transition comes to: the state to go on with, and the
/// notification that the driver is to publish.
#[derive(Debug, PartialEq, Eq)]
pub struct Transition {
    pub state: State,
    pub published: Option<DhtEvent>,
}

/// The event that comes out of racing a handler against the shutdown signal:
/// the handler's event if it finished first, `Shutdown` if the signal did
/// (`raced` is `None`).
pub fn or_shutdown(raced: Option<StateEvent>) -> (event: StateEvent)
    ensures
        match raced {
            Some(produced) => event == produced,
            None => event == StateEvent::Shutdown,
        },
{
    match raced {
        Some(produced) => produced,
        None => StateEvent::Shutdown,
    }
}

/// The decisions of the discovery loop.
#[derive(Debug)]
pub struct DhtNetworkDiscovery {
    context: NetworkDiscoveryContext,
}

impl DhtNetworkDiscovery {
    /// The context of this loop.
    pub closed spec fn spec_context(&self) -> NetworkDiscoveryContext {
        self.context
    }

    /// The discovery options of this loop.
    pub open spec fn discovery_config(&self) -> NetworkDiscoveryConfig {
        self.spec_context().config.network_discovery
    }

    /// A loop with the given configuration that has counted no round.
    pub fn new(config: DhtConfig) -> (discovery: DhtNetworkDiscovery)
        ensures
            discovery.spec_context().config == config,
            discovery.spec_context().num_rounds == 0,
    {
        DhtNetworkDiscovery { context: NetworkDiscoveryContext::new(config) }
    }

    /// The context, for the handlers to read.
    pub fn context(&self) -> (context: &NetworkDiscoveryContext)
        ensures
            *context == self.spec_context(),
    {
        &self.context
    }

    /// The context, for the active handler to count rounds in.
    pub fn context_mut(&mut self) -> (context: &mut NetworkDiscoveryContext)
        ensures
            *context == old(self).spec_context(),
            final(self).spec_context() == *final(context),
    {
        &mut self.context
    }

    /// The configuration.
    pub fn config(&self) -> (config: &DhtConfig)
        ensures
            *config == self.spec_context().config,
    {
        &self.context.config
    }

    /// The state in which the loop starts, or `None` where discovery is
    /// disabled: the loop then does not start at all.
    pub fn initial_state(&self) -> (start: Option<State>)
        ensures
            self.discovery_config().enabled ==> start == Some(State::Initializing),
            !self.discovery_config().enabled ==> start is None,
    {
        if self.context.config.network_discovery.enabled {
            Some(State::Initializing)
        } else {
            None
        }
    }

    /// Applies `next_event` to `current_state` by the transition table.
    pub fn transition(&self, current_state: State, next_event: StateEvent) -> (outcome: Transition)
        ensures
            outcome.state@ == next_state(self.discovery_config(), current_state@, next_event@),
            notification_view(outcome.published) == published(current_state@, next_event@),
    {
        let config = &self.context.config.network_discovery;
        match (current_state, next_event) {
            (State::Initializing, StateEvent::Initialized) => Transition {
                state: State::Ready(DiscoveryReady::initial()),
                published: None,
            },
            (_, StateEvent::Ready) => Transition {
                state: State::Ready(DiscoveryReady::initial()),
                published: None,
            },
            (State::Ready(_), StateEvent::BeginDiscovery(params)) => Transition {
                state: State::Discovering(Discovering::new(params)),
                published: None,
            },
            (State::Discovering(_), StateEvent::DiscoveryComplete(stats)) => {
                let published = if stats.has_new_peers() {
                    Some(DhtEvent::NetworkDiscoveryPeersAdded(stats.clone()))
                } else {
                    None
                };
                if !stats.is_success() {
                    return Transition {
                        state: State::Waiting(Waiting::from(config.on_failure_idle_period)),
                        published,
                    };
                }
                Transition { state: State::Ready(DiscoveryReady::new(stats)), published }
            },
            (State::Ready(_), StateEvent::Idle) => Transition {
                state: State::Waiting(Waiting::from(config.idle_period)),
                published: None,
            },
            (_, StateEvent::Shutdown) => Transition { state: State::Shutdown, published: None },
            (_, StateEvent::Errored(_)) => Transition {
                state: State::Waiting(Waiting::from(config.on_failure_idle_period)),
                published: None,
            },
            (state, _) => Transition { state, published: None },
        }
    }

    /// One turn of the loop: settles which event applies and applies it.
    ///
    /// `raced` is what the race between the active state's handler and the
    /// shutdown signal came to: the handler's event, or `None` if the signal
    /// won. In the terminal state no handler runs, and the event is
    /// `Shutdown` whatever `raced` holds.
    pub fn step(&self, state: State, raced: Option<StateEvent>) -> (outcome: Transition)
        ensures
            outcome.state@ == turn(self.discovery_config(), state@, raced_view(raced)),
            notification_view(outcome.published) == published(
                state@,
                applied_event(state@, raced_view(raced)),
            ),
    {
        let event = if state.is_shutdown() {
            StateEvent::Shutdown
        } else {
            or_shutdown(raced)
        };
        self.transition(state, event)
    }
}

} // verus!
