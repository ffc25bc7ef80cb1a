//! What holds of the transition table, of a turn of the loop and of every
//! run of it, whatever the state, the event and the configuration.

use crate::config::NetworkDiscoveryConfig;
use crate::event::{DhtEventView, NetworkDiscoveryErrorView, StateEventView};
use crate::round::{DiscoveryParamsView, RoundInfoView};
use crate::state::StateView;
use crate::state_machine::{applied_event, next_state, published, turn};
use vstd::prelude::*;

verus! {

/// Every transition ends in a state that a row of the table names, or leaves
/// the state as it was: the next state is a fresh `Ready`, `Ready` with the
/// statistics that the event brought, `Discovering` with the parameters that
/// the event brought, `Waiting` for one of the two configured periods,
/// `Shutdown`, or the current state.
pub proof fn lemma_transition_stays_in_table(
    config: NetworkDiscoveryConfig,
    state: StateView,
    event: StateEventView,
)
    ensures
        ({
            let next = next_state(config, state, event);
            ||| next == StateView::Ready(None)
            ||| (event matches StateEventView::DiscoveryComplete(stats) && next == StateView::Ready(
                Some(stats),
            ))
            ||| (event matches StateEventView::BeginDiscovery(params) && next
                == StateView::Discovering(params))
            ||| next == StateView::Waiting(config.idle_period)
            ||| next == StateView::Waiting(config.on_failure_idle_period)
            ||| next == StateView::Shutdown
            ||| next == state
        }),
{
}

/// The `Shutdown` event leads to `Shutdown` from every state, and publishes
/// nothing.
pub proof fn lemma_shutdown_event_ends(config: NetworkDiscoveryConfig, state: StateView)
    ensures
        next_state(config, state, StateEventView::Shutdown) == StateView::Shutdown,
        published(state, StateEventView::Shutdown) is None,
{
}

/// In the table, `Shutdown` is left only by the rows that hold for any
/// state: no event but `Ready` and `Errored` leads out of it.
pub proof fn lemma_shutdown_kept_by_table(config: NetworkDiscoveryConfig, event: StateEventView)
    requires
        !(event is Ready),
        !(event is Errored),
    ensures
        next_state(config, StateView::Shutdown, event) == StateView::Shutdown,
{
}

/// A turn of the loop never leaves `Shutdown`, whatever the race came to, and
/// publishes nothing there: the terminal state has no outgoing transition.
pub proof fn lemma_shutdown_is_terminal(
    config: NetworkDiscoveryConfig,
    raced: Option<StateEventView>,
)
    ensures
        turn(config, StateView::Shutdown, raced) == StateView::Shutdown,
        published(StateView::Shutdown, applied_event(StateView::Shutdown, raced)) is None,
{
}

/// When the shutdown signal wins the race, the turn ends in `Shutdown`, from
/// every state.
pub proof fn lemma_signal_ends_loop(config: NetworkDiscoveryConfig, state: StateView)
    ensures
        turn(config, state, None) == StateView::Shutdown,
{
}

/// Nothing ends the loop but a shutdown: a transition from a state other
/// than `Shutdown` reaches `Shutdown` only on the `Shutdown` event.
pub proof fn lemma_only_shutdown_ends(
    config: NetworkDiscoveryConfig,
    state: StateView,
    event: StateEventView,
)
    requires
        !state.is_shutdown(),
        next_state(config, state, event).is_shutdown(),
    ensures
        event is Shutdown,
{
}

/// Backoff: an `Errored` event leads to `Waiting` for exactly the configured
/// failure idle period, from every state, and publishes nothing.
pub proof fn lemma_error_backs_off(
    config: NetworkDiscoveryConfig,
    state: StateView,
    err: NetworkDiscoveryErrorView,
)
    ensures
        next_state(config, state, StateEventView::Errored(err)) == StateView::Waiting(
            config.on_failure_idle_period,
        ),
        published(state, StateEventView::Errored(err)) is None,
{
}

/// A round that completes in the discovering state leads to `Ready`, which
/// keeps its statistics, if it succeeded, and to `Waiting` for the failure
/// idle period if it did not.
pub proof fn lemma_round_outcome_routes(
    config: NetworkDiscoveryConfig,
    params: DiscoveryParamsView,
    stats: RoundInfoView,
)
    ensures
        stats.is_success() ==> next_state(
            config,
            StateView::Discovering(params),
            StateEventView::DiscoveryComplete(stats),
        ) == StateView::Ready(Some(stats)),
        !stats.is_success() ==> next_state(
            config,
            StateView::Discovering(params),
            StateEventView::DiscoveryComplete(stats),
        ) == StateView::Waiting(config.on_failure_idle_period),
{
}

/// "Peers added" is published exactly when a round that added peers
/// completes in the discovering state, and it carries the statistics of
/// that round.
pub proof fn lemma_published_iff_new_peers(state: StateView, event: StateEventView)
    ensures
        published(state, event) is Some <==> (state is Discovering && (event matches
            StateEventView::DiscoveryComplete(stats) && stats.has_new_peers())),
        published(state, event) matches Some(DhtEventView::NetworkDiscoveryPeersAdded(stats))
            ==> event == StateEventView::DiscoveryComplete(stats),
{
}

/// The state of the loop after the given turns, the first of them taken in
/// `Initializing`. Each entry is what one race came to: the handler's event,
/// or `None` where the shutdown signal won. The states of this form are the
/// reachable ones.
pub open spec fn state_after(
    config: NetworkDiscoveryConfig,
    races: Seq<Option<StateEventView>>,
) -> StateView
    decreases races.len(),
{
    if races.len() == 0 {
        StateView::Initializing
    } else {
        turn(config, state_after(config, races.drop_last()), races.last())
    }
}

/// What the table lets a state hold: `Waiting` only for one of the two
/// configured periods, and in `Ready` only the statistics of a round that
/// succeeded.
pub open spec fn in_table(config: NetworkDiscoveryConfig, state: StateView) -> bool {
    match state {
        StateView::Waiting(duration) => duration == config.idle_period || duration
            == config.on_failure_idle_period,
        StateView::Ready(Some(stats)) => stats.is_success(),
        _ => true,
    }
}

/// A turn keeps a state within what the table lets it hold.
pub proof fn lemma_turn_keeps_in_table(
    config: NetworkDiscoveryConfig,
    state: StateView,
    raced: Option<StateEventView>,
)
    requires
        in_table(config, state),
    ensures
        in_table(config, turn(config, state, raced)),
{
}

/// Every reachable state is within what the table lets it hold.
pub proof fn lemma_reachable_in_table(
    config: NetworkDiscoveryConfig,
    races: Seq<Option<StateEventView>>,
)
    ensures
        in_table(config, state_after(config, races)),
    decreases races.len(),
{
    if races.len() > 0 {
        lemma_reachable_in_table(config, races.drop_last());
        lemma_turn_keeps_in_table(config, state_after(config, races.drop_last()), races.last());
    }
}

/// `Shutdown` is absorbing: a run that has reached it stays in it, whatever
/// the later races come to.
pub proof fn lemma_shutdown_absorbs(
    config: NetworkDiscoveryConfig,
    races: Seq<Option<StateEventView>>,
    later: Seq<Option<StateEventView>>,
)
    requires
        state_after(config, races).is_shutdown(),
    ensures
        state_after(config, races + later).is_shutdown(),
    decreases later.len(),
{
    if later.len() == 0 {
        assert(races + later =~= races);
    } else {
        lemma_shutdown_absorbs(config, races, later.drop_last());
        assert((races + later).drop_last() =~= races + later.drop_last());
        assert((races + later).last() == later.last());
    }
}

/// A run in which the shutdown signal won a race has ended in `Shutdown`.
pub proof fn lemma_signal_ends_run(
    config: NetworkDiscoveryConfig,
    races: Seq<Option<StateEventView>>,
    won: int,
)
    requires
        0 <= won < races.len(),
        races[won] is None,
    ensures
        state_after(config, races).is_shutdown(),
{
    let upto = races.subrange(0, won + 1);
    let later = races.subrange(won + 1, races.len() as int);
    assert(upto.last() == races[won]);
    assert(state_after(config, upto).is_shutdown());
    lemma_shutdown_absorbs(config, upto, later);
    assert(upto + later =~= races);
}

} // verus!
