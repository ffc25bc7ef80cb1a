//! The configuration and the round counter that every state handler is given.

use crate::config::DhtConfig;
use vstd::prelude::*;

verus! {

/// What the state handlers share: the configuration, which nothing changes
/// after construction, and the number of rounds run in the current cycle.
///
/// The loop runs one handler at a time, so the counter is a plain number
/// owned by the loop and lent to the active handler. The type has no `Clone`:
/// a copy would count on its own.
#[derive(Debug)]
pub struct NetworkDiscoveryContext {
    pub config: DhtConfig,
    pub num_rounds: usize,
}

impl NetworkDiscoveryContext {
    /// A context with the given configuration and no round counted.
    pub fn new(config: DhtConfig) -> (context: NetworkDiscoveryContext)
        ensures
            context.config == config,
            context.num_rounds == 0,
    {
        NetworkDiscoveryContext { config, num_rounds: 0 }
    }

    /// Increment the number of rounds by 1 and return the number before the
    /// increment. At `usize::MAX` the counter wraps to 0.
    pub fn increment_num_rounds(&mut self) -> (previous: usize)
        ensures
            previous == old(self).num_rounds,
            final(self).num_rounds == (if old(self).num_rounds == usize::MAX {
                0int
            } else {
                old(self).num_rounds + 1
            }),
            final(self).config == old(self).config,
    {
        let previous = self.num_rounds;
        self.num_rounds = if previous == usize::MAX {
            0
        } else {
            previous + 1
        };
        previous
    }

    /// Get the number of rounds.
    pub fn num_rounds(&self) -> (count: usize)
        ensures
            count == self.num_rounds,
    {
        self.num_rounds
    }

    /// Reset the number of rounds to 0.
    pub fn reset_num_rounds(&mut self)
        ensures
            final(self).num_rounds == 0,
            final(self).config == old(self).config,
    {
        self.num_rounds = 0;
    }
}

} // verus!
